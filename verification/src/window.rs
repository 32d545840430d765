//! Extended window styles.

use vstd::prelude::*;

verus! {

/// The style of floating tool windows.
pub const WS_EX_TOOLWINDOW: u32 = 0x80;

/// The style of windows that a click does not activate.
pub const WS_EX_NOACTIVATE: u32 = 0x0800_0000;

/// Whether all bits of `flag` are set in a style.
pub open spec fn style_has(ex_style: u32, flag: u32) -> bool {
    ex_style & flag == flag
}

/// Whether a style marks windows that focus never follows the mouse to.
pub open spec fn is_filtered_style(ex_style: u32) -> bool {
    style_has(ex_style, WS_EX_TOOLWINDOW) || style_has(ex_style, WS_EX_NOACTIVATE)
}

/// The style with the bits of a signed number.
pub open spec fn style_with_bits_of(returned: i32) -> u32 {
    #[verifier::truncate]
    (returned as u32)
}

/// The extended style in what `GetWindowLongW` returned, read as an unsigned number.
pub fn get_window_ex_style(returned: i32) -> (ex_style: u32)
    ensures
        ex_style == style_with_bits_of(returned),
        ex_style == if returned >= 0 {
            returned as int
        } else {
            returned + 0x1_0000_0000
        },
{
    assert(returned >= 0 ==> (returned as u32) == returned) by (bit_vector);
    assert(returned < 0 ==> (returned as u32) == returned + 0x1_0000_0000) by (bit_vector);
    #[verifier::truncate]
    (returned as u32)
}

/// Tells whether a window with this extended style is a tool window or cannot be activated.
pub fn has_filtered_style(ex_style: u32) -> (filtered: bool)
    ensures
        filtered == is_filtered_style(ex_style),
{
    ex_style & WS_EX_TOOLWINDOW == WS_EX_TOOLWINDOW || ex_style & WS_EX_NOACTIVATE
        == WS_EX_NOACTIVATE
}

/// Whatever other bits are set, a style with the bit of tool windows is filtered, so is one with
/// the bit of windows that a click does not activate, and a style with neither is not.
pub proof fn either_bit_filters_a_style(ex_style: u32)
    ensures
        is_filtered_style(ex_style | 0x80),
        is_filtered_style(ex_style | 0x0800_0000),
        !is_filtered_style(ex_style & !0x0800_0080u32),
        is_filtered_style(ex_style | WS_EX_TOOLWINDOW),
        is_filtered_style(ex_style | WS_EX_NOACTIVATE),
        !is_filtered_style(ex_style & !(WS_EX_TOOLWINDOW | WS_EX_NOACTIVATE)),
{
    assert((ex_style | 0x80) & 0x80 == 0x80) by (bit_vector);
    assert((ex_style | 0x0800_0000) & 0x0800_0000 == 0x0800_0000) by (bit_vector);
    assert((ex_style & !0x0800_0080u32) & 0x80 != 0x80) by (bit_vector);
    assert((ex_style & !0x0800_0080u32) & 0x0800_0000 != 0x0800_0000) by (bit_vector);
    assert(0x80u32 | 0x0800_0000u32 == 0x0800_0080u32) by (bit_vector);
}

/// Two styles that agree in those two bits are filtered alike.
pub proof fn no_other_bit_matters(ex_style: u32, other: u32)
    requires
        ex_style & 0x0800_0080 == other & 0x0800_0080,
    ensures
        is_filtered_style(ex_style) == is_filtered_style(other),
{
    assert(ex_style & 0x80 == other & 0x80) by (bit_vector)
        requires
            ex_style & 0x0800_0080 == other & 0x0800_0080,
    ;
    assert(ex_style & 0x0800_0000 == other & 0x0800_0000) by (bit_vector)
        requires
            ex_style & 0x0800_0080 == other & 0x0800_0080,
    ;
}

/// A number that is returned with a sign stands for the style that differs from it by a
/// multiple of two to the power of thirty-two, so no two numbers stand for one style.
pub proof fn a_style_keeps_the_returned_bits(returned: i32, other: i32)
    ensures
        style_with_bits_of(returned) == if returned >= 0 {
            returned as int
        } else {
            returned + 0x1_0000_0000
        },
        style_with_bits_of(returned) == style_with_bits_of(other) ==> returned == other,
{
    assert(returned >= 0 ==> (returned as u32) == returned) by (bit_vector);
    assert(returned < 0 ==> (returned as u32) == returned + 0x1_0000_0000) by (bit_vector);
    assert((returned as u32) == (other as u32) ==> returned == other) by (bit_vector);
}

} // verus!
