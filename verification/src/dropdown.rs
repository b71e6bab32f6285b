//! State of a drop-down menu: its options and the option chosen so far.
use vstd::prelude::*;

verus! {

/// An option of a drop-down menu: the name shown and the value it stands for.
#[derive(Clone)]
pub struct DropdownButton<T: std::clone::Clone> {
    pub name: String,
    pub value: T,
}

/// What a drop-down menu remembers between frames: the chosen option, if any.
#[derive(Clone)]
pub struct DropdownData<T: std::clone::Clone> {
    pub selected: Option<DropdownButton<T>>,
}

/// `b` is a copy of `a`: the same name and a clone of its value.
pub open spec fn copied_button<T: Clone>(a: DropdownButton<T>, b: DropdownButton<T>) -> bool {
    b.name@ == a.name@ && cloned::<T>(a.value, b.value)
}

/// A copy of the option `b`.
pub fn copy_button<T: Clone>(b: &DropdownButton<T>) -> (r: DropdownButton<T>)
    ensures
        copied_button(*b, r),
{
    DropdownButton { name: b.name.clone(), value: b.value.clone() }
}

/// The state of a menu in this frame: what it remembered, or else the option at
/// `default_index` chosen.
pub fn dropdown_state<T: Clone>(
    stored: Option<DropdownData<T>>,
    options: &Vec<DropdownButton<T>>,
    default_index: usize,
) -> (r: DropdownData<T>)
    requires
        default_index < options@.len(),
    ensures
        stored matches Some(d) ==> r == d,
        stored is None ==> (r.selected matches Some(b) && copied_button(
            options@[default_index as int],
            b,
        )),
{
    let fallback = DropdownData { selected: Some(copy_button(&options[default_index])) };
    match stored {
        Some(d) => d,
        None => fallback,
    }
}

/// The state after the option at `index` is clicked: that option chosen.
pub fn dropdown_click<T: Clone>(options: &Vec<DropdownButton<T>>, index: usize) -> (r: DropdownData<
    T,
>)
    requires
        index < options@.len(),
    ensures
        r.selected matches Some(b) && copied_button(options@[index as int], b),
{
    DropdownData { selected: Some(copy_button(&options[index])) }
}

/// What a menu reports as chosen when asked: what it remembered, or nothing.
pub fn dropdown_selected<T: Clone>(stored: Option<DropdownData<T>>) -> (r: DropdownData<T>)
    ensures
        stored matches Some(d) ==> r == d,
        stored is None ==> r.selected is None,
{
    match stored {
        Some(d) => d,
        None => DropdownData { selected: None },
    }
}

/// The title of a menu: the chosen option's name, or `none`.
pub fn dropdown_title<T: Clone>(data: &DropdownData<T>) -> (r: String)
    ensures
        r@ == (match data.selected {
            Some(b) => b.name@,
            None => "none"@,
        }),
{
    match &data.selected {
        Some(s) => s.name.clone(),
        None => "none".to_owned(),
    }
}

} // verus!
