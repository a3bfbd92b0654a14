use vstd::prelude::*;

verus! {

/// The three interchangeable ways of producing frames.
#[derive(Clone, Copy, Debug, PartialEq, Eq, Structural)]
pub enum BackendKind {
    /// A compositor event loop that redraws on request.
    Wayland,
    /// A polling loop that presents to a hardware display.
    Drm,
    /// A polling loop that renders into memory and may write frames to a file.
    Raster,
}

/// What lowercasing `s` gives, character by character as the Unicode tables say.
pub uninterp spec fn lower_of(s: Seq<char>) -> Seq<char>;

/// Relies on `str::to_lowercase`: the lowercase form of `s`, which depends on
/// the characters of `s` alone.
#[verifier::external_body]
fn lowercase(s: &str) -> (r: String)
    ensures
        r@ == lower_of(s@),
{
    s.to_lowercase()
}

/// The backend that an already lowercased name selects: `kms` is another
/// name for `drm`, and any name not recognized selects the windowed backend.
pub open spec fn kind_of_lowered(name: Seq<char>) -> BackendKind {
    if name == "drm"@ || name == "kms"@ {
        BackendKind::Drm
    } else if name == "raster"@ {
        BackendKind::Raster
    } else {
        BackendKind::Wayland
    }
}

/// The backend that an optional, case-insensitive name selects; no name
/// selects the windowed backend.
pub open spec fn kind_of_name(name: Option<Seq<char>>) -> BackendKind {
    match name {
        Some(n) => kind_of_lowered(lower_of(n)),
        None => BackendKind::Wayland,
    }
}

fn same_chars(a: &str, b: &str) -> (r: bool)
    ensures
        r == (a@ == b@),
{
    let n = a.unicode_len();
    if n != b.unicode_len() {
        return false;
    }
    let mut i: usize = 0;
    while i < n
        invariant
            n == a@.len(),
            n == b@.len(),
            i <= n,
            forall|j: int| 0 <= j < i ==> a@[j] == b@[j],
        decreases n - i,
    {
        if a.get_char(i) != b.get_char(i) {
            return false;
        }
        i = i + 1;
    }
    assert(a@ =~= b@);
    true
}

/// The backend that an already lowercased name selects.
pub fn kind_from_lowered(name: &str) -> (k: BackendKind)
    ensures
        k == kind_of_lowered(name@),
{
    if same_chars(name, "drm") || same_chars(name, "kms") {
        BackendKind::Drm
    } else if same_chars(name, "raster") {
        BackendKind::Raster
    } else {
        BackendKind::Wayland
    }
}

/// The backend that an optional, case-insensitive name selects.
pub fn select_backend(name: Option<&str>) -> (k: BackendKind)
    ensures
        k == kind_of_name(
            match name {
                Some(n) => Some(n@),
                None => None,
            },
        ),
{
    match name {
        Some(n) => {
            let lowered = lowercase(n);
            kind_from_lowered(lowered.as_str())
        },
        None => BackendKind::Wayland,
    }
}

} // verus!
