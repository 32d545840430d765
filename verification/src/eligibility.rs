//! Which windows focus may follow the mouse to, and leave.

use crate::listing::{
    a_separator_splits_a_list, a_written_list_lists_its_numbers, is_listed, lists_number,
    written_list,
};
use crate::matching::{is_ignored, is_ignored_class};
use crate::window::{either_bit_filters_a_style, has_filtered_style, is_filtered_style};
use vstd::prelude::*;

verus! {

/// The characters of a text, if there is one.
pub open spec fn text_of(text: Option<&str>) -> Option<Seq<char>> {
    match text {
        Some(text) => Some(text@),
        None => None,
    }
}

/// Whether the class of a window lets it be focused. The list of ignored classes counts only
/// where the class of the other window is known as well.
pub open spec fn class_permits(class: Option<Seq<char>>, other_class: Option<Seq<char>>) -> bool {
    class is Some && other_class is Some ==> !is_ignored(class->0)
}

/// Whether a window is eligible by a window manager's list of handles: the handle is one of
/// the numbers in the list, and the class permits it.
pub open spec fn eligible_by_hwnds(
    raw_hwnds: Seq<char>,
    hwnd: isize,
    class: Option<Seq<char>>,
    other_class: Option<Seq<char>>,
) -> bool {
    is_listed(hwnd as int, raw_hwnds) && class_permits(class, other_class)
}

/// Whether a window is eligible by what it is: its style is not filtered, and its class
/// permits it.
pub open spec fn eligible_by_style(
    ex_style: u32,
    class: Option<Seq<char>>,
    other_class: Option<Seq<char>>,
) -> bool {
    !is_filtered_style(ex_style) && class_permits(class, other_class)
}

/// Tells whether the class of a window lets it be focused.
pub fn is_permitted_class(class: Option<&str>, other_class: Option<&str>) -> (permitted: bool)
    ensures
        permitted == class_permits(text_of(class), text_of(other_class)),
{
    match (class, other_class) {
        (Some(class), Some(_)) => !is_ignored_class(class),
        _ => true,
    }
}

/// Tells whether a window is eligible by a window manager's list of handles.
pub fn is_eligible_by_hwnds(
    raw_hwnds: &str,
    hwnd: isize,
    class: Option<&str>,
    other_class: Option<&str>,
) -> (eligible: bool)
    ensures
        eligible == eligible_by_hwnds(raw_hwnds@, hwnd, text_of(class), text_of(other_class)),
{
    lists_number(raw_hwnds, hwnd) && is_permitted_class(class, other_class)
}

/// Tells whether a window is eligible by its extended style and its class.
pub fn is_eligible_by_style(
    ex_style: u32,
    class: Option<&str>,
    other_class: Option<&str>,
) -> (eligible: bool)
    ensures
        eligible == eligible_by_style(ex_style, text_of(class), text_of(other_class)),
{
    !has_filtered_style(ex_style) && is_permitted_class(class, other_class)
}

/// Whether two root windows are those of Steam: its content, and the frame that has the focus.
pub open spec fn is_steam_pair(
    cursor_root_class: Option<Seq<char>>,
    foreground_class: Option<Seq<char>>,
) -> bool {
    &&& cursor_root_class == Some("Chrome_RenderWidgetHostHWND"@)
    &&& foreground_class == Some("SDL_app"@)
}

/// Tells whether two classes are those of Steam's windows.
pub fn are_steam_classes(
    cursor_root_class: Option<&str>,
    foreground_class: Option<&str>,
) -> (steam: bool)
    ensures
        steam == is_steam_pair(text_of(cursor_root_class), text_of(foreground_class)),
{
    match (cursor_root_class, foreground_class) {
        (Some(cursor_root_class), Some(foreground_class)) => {
            crate::text::same_text(cursor_root_class, "Chrome_RenderWidgetHostHWND")
                && crate::text::same_text(foreground_class, "SDL_app")
        },
        _ => false,
    }
}

/// The characters of a text are all that counts of it.
pub proof fn a_text_is_taken_as_it_is(text: &str)
    ensures
        text_of(Some(text)) == Some(text@),
        text_of(None) is None,
{
}

/// A window whose class is not ignored, or is not known, or is compared with an unknown one, is
/// eligible by the list exactly if its handle is one of the numbers in the text. A window whose
/// class is ignored is not eligible beside a window of known class, whatever the text.
pub proof fn the_list_decides(
    raw_hwnds: Seq<char>,
    hwnd: isize,
    class: Option<Seq<char>>,
    other_class: Option<Seq<char>>,
)
    ensures
        (class is None || other_class is None || !is_ignored(class->0)) ==> (eligible_by_hwnds(
            raw_hwnds,
            hwnd,
            class,
            other_class,
        ) <==> is_listed(hwnd as int, raw_hwnds)),
        class is Some && other_class is Some && is_ignored(class->0) ==> !eligible_by_hwnds(
            raw_hwnds,
            hwnd,
            class,
            other_class,
        ),
{
}

/// By a list of decimals with a separator between them, such as commas or blanks, exactly the
/// windows whose handles are in it are eligible, as far as their classes are not ignored.
pub proof fn a_listed_handle_is_eligible(
    handles: Seq<int>,
    separator: char,
    hwnd: isize,
    class: Option<Seq<char>>,
    other_class: Option<Seq<char>>,
)
    requires
        !('0' <= separator <= '9'),
        !('a' <= separator <= 'z'),
        !('A' <= separator <= 'Z'),
        separator as int <= 0x7f,
        separator != '-',
        class is None || other_class is None || !is_ignored(class->0),
    ensures
        eligible_by_hwnds(written_list(handles, separator), hwnd, class, other_class)
            <==> handles.contains(hwnd as int),
        eligible_by_hwnds(
            seq!['['] + written_list(handles, separator) + seq![']'],
            hwnd,
            class,
            other_class,
        ) <==> handles.contains(hwnd as int),
{
    a_written_list_lists_its_numbers(handles, separator, hwnd as int);
}

/// More text behind a separator takes no window off the list, and adds those that it lists.
pub proof fn a_longer_list_permits_more(
    before: Seq<char>,
    separator: char,
    behind: Seq<char>,
    hwnd: isize,
    class: Option<Seq<char>>,
    other_class: Option<Seq<char>>,
)
    requires
        !('0' <= separator <= '9'),
        !('a' <= separator <= 'z'),
        !('A' <= separator <= 'Z'),
        separator as int <= 0x7f,
        separator != '-',
    ensures
        eligible_by_hwnds(before.push(separator) + behind, hwnd, class, other_class)
            <==> eligible_by_hwnds(before, hwnd, class, other_class) || eligible_by_hwnds(
            behind,
            hwnd,
            class,
            other_class,
        ),
{
    a_separator_splits_a_list(before, separator, behind, hwnd as int);
}

/// A tool window is not eligible by its style, nor is one that cannot be activated, whatever its
/// class. Every other window is, unless its class is ignored and the other class is known.
pub proof fn the_style_decides(
    ex_style: u32,
    class: Option<Seq<char>>,
    other_class: Option<Seq<char>>,
)
    ensures
        !eligible_by_style(ex_style | 0x80, class, other_class),
        !eligible_by_style(ex_style | 0x0800_0000, class, other_class),
        eligible_by_style(ex_style & !0x0800_0080u32, class, other_class) <==> !(class is Some
            && other_class is Some && is_ignored(class->0)),
        eligible_by_style(ex_style, class, other_class) <==> !is_filtered_style(ex_style) && !(
        class is Some && other_class is Some && is_ignored(class->0)),
{
    either_bit_filters_a_style(ex_style);
}

/// Only windows of these two classes, each in its place, are taken for Steam's.
pub proof fn steam_is_known_by_two_classes(
    cursor_root_class: Option<Seq<char>>,
    foreground_class: Option<Seq<char>>,
)
    ensures
        is_steam_pair(Some("Chrome_RenderWidgetHostHWND"@), Some("SDL_app"@)),
        is_steam_pair(cursor_root_class, foreground_class) ==> cursor_root_class == Some(
            "Chrome_RenderWidgetHostHWND"@,
        ) && foreground_class == Some("SDL_app"@),
        !is_steam_pair(Some("SDL_app"@), Some("Chrome_RenderWidgetHostHWND"@)),
{
    reveal_strlit("Chrome_RenderWidgetHostHWND");
    reveal_strlit("SDL_app");
    assert("Chrome_RenderWidgetHostHWND"@.len() != "SDL_app"@.len());
}

} // verus!
