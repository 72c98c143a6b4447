//! Building lists whose contents are stated over the deep views of the items.

use vstd::prelude::*;

verus! {

/// Appends an item to a list.
pub fn push_item<T: DeepView>(list: &mut Vec<T>, item: T)
    ensures
        final(list).deep_view() == old(list).deep_view().push(item.deep_view()),
        final(list)@ == old(list)@.push(item),
{
    list.push(item);
    assert(list.deep_view() =~= old(list).deep_view().push(item.deep_view()));
}

/// Takes the first item out of a list.
pub fn take_first<T: DeepView>(list: &mut Vec<T>) -> (r: T)
    requires
        old(list)@.len() > 0,
    ensures
        r.deep_view() == old(list).deep_view()[0],
        final(list).deep_view() == old(list).deep_view().drop_first(),
{
    let ghost before = list.deep_view();
    let ghost items = list@;
    let r = list.remove(0);
    assert forall|i: int| 0 <= i < list@.len() implies list.deep_view()[i] == #[trigger] before[i
        + 1] by {
        assert(list@[i] == items[i + 1]);
    }
    assert(list.deep_view() =~= before.drop_first());
    r
}

/// The list without items.
pub fn no_items<T: DeepView>() -> (r: Vec<T>)
    ensures
        r.deep_view() == Seq::<T::V>::empty(),
        r@ == Seq::<T>::empty(),
{
    let r: Vec<T> = Vec::new();
    assert(r.deep_view() =~= Seq::<T::V>::empty());
    r
}

/// The list of one item.
pub fn one_item<T: DeepView>(item: T) -> (r: Vec<T>)
    ensures
        r.deep_view() == seq![item.deep_view()],
{
    let mut r = no_items();
    push_item(&mut r, item);
    r
}

/// The list of two items.
pub fn two_items<T: DeepView>(first: T, second: T) -> (r: Vec<T>)
    ensures
        r.deep_view() == seq![first.deep_view(), second.deep_view()],
{
    let mut r = one_item(first);
    push_item(&mut r, second);
    r
}

/// Appends the items of a second list to a list.
pub fn push_all<T: DeepView>(list: &mut Vec<T>, items: Vec<T>)
    ensures
        final(list).deep_view() == old(list).deep_view() + items.deep_view(),
{
    let mut items = items;
    let ghost before = items;
    list.append(&mut items);
    assert(list.deep_view() =~= old(list).deep_view() + before.deep_view());
}

/// A copy of an optional text.
pub fn copy_text(text: &Option<String>) -> (r: Option<String>)
    ensures
        r.deep_view() == text.deep_view(),
{
    match text {
        Some(t) => Some(t.clone()),
        None => None,
    }
}

} // verus!
