//! Where the list of a window manager's window handles is read from.

use vstd::prelude::*;

verus! {

/// Where to look for the list.
#[derive(Debug, PartialEq, Eq)]
pub enum HwndsCandidate<P> {
    /// Nowhere: no list is used.
    Nowhere,
    /// Where komorebi writes it, below the directory for local data.
    Komorebi,
    /// In the given file.
    At(P),
}

/// The place to look at, by what was named and whether integrations are disabled.
pub open spec fn place_to_look<P>(
    hwnds: Option<P>,
    disable_integrations: bool,
) -> HwndsCandidate<P> {
    match hwnds {
        Some(path) => HwndsCandidate::At(path),
        None => if disable_integrations {
            HwndsCandidate::Nowhere
        } else {
            HwndsCandidate::Komorebi
        },
    }
}

/// A path, if a file was found there.
pub open spec fn kept_if_file<P>(path: P, is_file: bool) -> Option<P> {
    if is_file {
        Some(path)
    } else {
        None
    }
}

/// Where to look for the list. A file that was named counts; else komorebi's does, unless
/// integrations are disabled.
pub fn hwnds_candidate<P>(
    hwnds: Option<P>,
    disable_integrations: bool,
) -> (candidate: HwndsCandidate<P>)
    ensures
        candidate == place_to_look(hwnds, disable_integrations),
        candidate == match hwnds {
            Some(path) => HwndsCandidate::At(path),
            None => if disable_integrations {
                HwndsCandidate::Nowhere
            } else {
                HwndsCandidate::Komorebi
            },
        },
{
    match hwnds {
        Some(path) => HwndsCandidate::At(path),
        None => {
            if disable_integrations {
                HwndsCandidate::Nowhere
            } else {
                HwndsCandidate::Komorebi
            }
        },
    }
}

/// The directory and the name of komorebi's list, below the directory for local data.
pub fn komorebi_hwnds() -> (components: (&'static str, &'static str))
    ensures
        components.0@ == "komorebi"@,
        components.1@ == "komorebi.hwnd.json"@,
{
    ("komorebi", "komorebi.hwnd.json")
}

/// The list to use: the one found, if it is a file.
pub fn existing_hwnds<P>(path: P, is_file: bool) -> (hwnds: Option<P>)
    ensures
        hwnds == kept_if_file(path, is_file),
        hwnds == if is_file {
            Some(path)
        } else {
            None
        },
{
    if is_file {
        Some(path)
    } else {
        None
    }
}

/// A file that was named is looked at, whatever else is said. With none named, no place is looked
/// at exactly if integrations are disabled.
pub proof fn a_named_file_comes_first<P>(path: P, disable_integrations: bool)
    ensures
        place_to_look(Some(path), disable_integrations) == HwndsCandidate::At(path),
        place_to_look(None::<P>, true) is Nowhere,
        place_to_look(None::<P>, false) is Komorebi,
{
}

/// A path is used exactly if a file was found there, and then as it is.
pub proof fn only_a_file_is_used<P>(path: P, is_file: bool)
    ensures
        is_file ==> kept_if_file(path, is_file) == Some(path),
        !is_file ==> kept_if_file(path, is_file) is None,
{
}

} // verus!
