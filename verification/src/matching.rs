//! Window classes that focus never follows the mouse to.

use crate::text::{contains_text, occurs_in, same_text, what_occurs_is_a_part};
use vstd::prelude::*;

verus! {

/// How a window's class is compared with a known class.
#[derive(Debug, Clone, Copy, PartialEq, Eq, Structural)]
pub enum MatchingStrategy {
    Contains,
    Equals,
}

/// Whether `text` matches `pattern` under a strategy.
pub open spec fn match_holds(
    text: Seq<char>,
    pattern: Seq<char>,
    strategy: MatchingStrategy,
) -> bool {
    match strategy {
        MatchingStrategy::Equals => text == pattern,
        MatchingStrategy::Contains => occurs_in(pattern, text),
    }
}

/// Tells whether `str1` is `str2`, or holds it, as the strategy asks.
pub fn has_match(str1: &str, str2: &str, matching_strategy: &MatchingStrategy) -> (matched: bool)
    ensures
        matched == match_holds(str1@, str2@, *matching_strategy),
{
    match matching_strategy {
        MatchingStrategy::Equals => same_text(str1, str2),
        MatchingStrategy::Contains => contains_text(str1, str2),
    }
}

/// The classes whose windows are never focused, nor left: parts of the shell, and launchers.
pub open spec fn ignored_classes() -> Seq<(Seq<char>, MatchingStrategy)> {
    seq![
        ("SHELLDLL_DefView"@, MatchingStrategy::Equals),
        ("Shell_TrayWnd"@, MatchingStrategy::Equals),
        ("TrayNotifyWnd"@, MatchingStrategy::Equals),
        ("MSTaskSwWClass"@, MatchingStrategy::Equals),
        ("Windows.UI.Core.CoreWindow"@, MatchingStrategy::Equals),
        ("XamlExplorerHostIslandWindow"@, MatchingStrategy::Equals),
        ("ForegroundStaging"@, MatchingStrategy::Equals),
        ("Flow.Launcher"@, MatchingStrategy::Contains),
        ("PowerToys.PowerLauncher"@, MatchingStrategy::Contains),
    ]
}

/// Whether a class matches an entry of the list.
pub open spec fn is_ignored(class: Seq<char>) -> bool {
    exists|i: int|
        0 <= i < ignored_classes().len() && match_holds(
            class,
            (#[trigger] ignored_classes()[i]).0,
            ignored_classes()[i].1,
        )
}

/// The list of ignored classes.
pub fn class_ignorelist() -> (list: Vec<(&'static str, MatchingStrategy)>)
    ensures
        list@.len() == ignored_classes().len(),
        forall|i: int|
            0 <= i < list@.len() ==> {
                &&& (#[trigger] list@[i]).0@ == ignored_classes()[i].0
                &&& list@[i].1 == ignored_classes()[i].1
            },
{
    vec![
        // the desktop
        ("SHELLDLL_DefView", MatchingStrategy::Equals),
        // the tray
        ("Shell_TrayWnd", MatchingStrategy::Equals),
        ("TrayNotifyWnd", MatchingStrategy::Equals),
        // the icons of the start bar
        ("MSTaskSwWClass", MatchingStrategy::Equals),
        // the start menu
        ("Windows.UI.Core.CoreWindow", MatchingStrategy::Equals),
        // the task switcher, under two names
        ("XamlExplorerHostIslandWindow", MatchingStrategy::Equals),
        ("ForegroundStaging", MatchingStrategy::Equals),
        // launchers
        ("Flow.Launcher", MatchingStrategy::Contains),
        ("PowerToys.PowerLauncher", MatchingStrategy::Contains),
    ]
}

/// Tells whether a class matches an entry of the list of ignored classes.
pub fn is_ignored_class(class: &str) -> (ignored: bool)
    ensures
        ignored == is_ignored(class@),
{
    let list = class_ignorelist();
    let mut ignored = false;
    for i in 0..list.len()
        invariant
            list@.len() == ignored_classes().len(),
            forall|j: int|
                0 <= j < list@.len() ==> {
                    &&& (#[trigger] list@[j]).0@ == ignored_classes()[j].0
                    &&& list@[j].1 == ignored_classes()[j].1
                },
            ignored == exists|j: int|
                0 <= j < i && match_holds(
                    class@,
                    (#[trigger] ignored_classes()[j]).0,
                    ignored_classes()[j].1,
                ),
    {
        let (pattern, strategy) = list[i];
        let matched = has_match(class, pattern, &strategy);
        assert(matched == match_holds(
            class@,
            ignored_classes()[i as int].0,
            ignored_classes()[i as int].1,
        ));
        ignored = ignored || matched;
    }
    ignored
}

/// A text matches itself alone where it must be equal, and every part of it where it must hold
/// the pattern: so whatever is equal is held as well.
pub proof fn a_match_is_the_text_or_a_part_of_it(text: Seq<char>, pattern: Seq<char>)
    ensures
        match_holds(text, pattern, MatchingStrategy::Equals) <==> text == pattern,
        match_holds(text, pattern, MatchingStrategy::Contains) <==> exists|
            before: Seq<char>,
            behind: Seq<char>,
        |
            text == #[trigger] (before + pattern + behind),
        match_holds(text, text, MatchingStrategy::Contains),
{
    what_occurs_is_a_part(pattern, text);
    what_occurs_is_a_part(text, text);
    let nothing: Seq<char> = seq![];
    assert(text =~= nothing + text + nothing);
}

/// The parts of the shell are ignored by their very names, and whatever has the name of a
/// launcher in its own is ignored too. Nothing else is.
pub proof fn the_shell_and_launchers_are_ignored(class: Seq<char>)
    ensures
        is_ignored(class) <==> {
            ||| class == "SHELLDLL_DefView"@
            ||| class == "Shell_TrayWnd"@
            ||| class == "TrayNotifyWnd"@
            ||| class == "MSTaskSwWClass"@
            ||| class == "Windows.UI.Core.CoreWindow"@
            ||| class == "XamlExplorerHostIslandWindow"@
            ||| class == "ForegroundStaging"@
            ||| occurs_in("Flow.Launcher"@, class)
            ||| occurs_in("PowerToys.PowerLauncher"@, class)
        },
        forall|before: Seq<char>, behind: Seq<char>|
            class == #[trigger] (before + "Flow.Launcher"@ + behind) ==> is_ignored(class),
        forall|before: Seq<char>, behind: Seq<char>|
            class == #[trigger] (before + "PowerToys.PowerLauncher"@ + behind) ==> is_ignored(
                class,
            ),
{
    let list = ignored_classes();
    what_occurs_is_a_part("Flow.Launcher"@, class);
    what_occurs_is_a_part("PowerToys.PowerLauncher"@, class);
    assert(list[0] == ("SHELLDLL_DefView"@, MatchingStrategy::Equals));
    assert(list[1] == ("Shell_TrayWnd"@, MatchingStrategy::Equals));
    assert(list[2] == ("TrayNotifyWnd"@, MatchingStrategy::Equals));
    assert(list[3] == ("MSTaskSwWClass"@, MatchingStrategy::Equals));
    assert(list[4] == ("Windows.UI.Core.CoreWindow"@, MatchingStrategy::Equals));
    assert(list[5] == ("XamlExplorerHostIslandWindow"@, MatchingStrategy::Equals));
    assert(list[6] == ("ForegroundStaging"@, MatchingStrategy::Equals));
    assert(list[7] == ("Flow.Launcher"@, MatchingStrategy::Contains));
    assert(list[8] == ("PowerToys.PowerLauncher"@, MatchingStrategy::Contains));
}

} // verus!
