//! Painting of the modal overlay: which clickable regions it adds to the
//! window.

use crate::outcome::PassFailure;
use crate::window::{TermWindow, TermWindowView, UiItem};
use vstd::prelude::*;

verus! {

/// One element of a modal overlay, after the attempt to render it.
#[derive(Debug, PartialEq, Eq)]
pub struct ModalElement {
    /// The clickable regions of the element.
    pub ui_items: Vec<UiItem>,
    /// Why the element could not be rendered, if it could not.
    pub failure: Option<PassFailure>,
}

/// The element of a modal overlay that could not be rendered.
#[derive(Debug, Clone, Copy, PartialEq, Eq, Structural)]
pub struct ModalFailure {
    /// Index of the element among those of the overlay.
    pub element: usize,
    /// Why it could not be rendered.
    pub cause: PassFailure,
}

/// The elements of the overlay, if there is one.
pub open spec fn modal_elements(modal: Option<&Vec<ModalElement>>) -> Seq<ModalElement> {
    match modal {
        Some(elements) => elements@,
        None => Seq::empty(),
    }
}

/// The elements of an overlay that is handed over for good, if there is one.
pub open spec fn owned_modal_elements(modal: Option<Vec<ModalElement>>) -> Seq<ModalElement> {
    match modal {
        Some(elements) => elements@,
        None => Seq::empty(),
    }
}

/// Index of the first element at or after `from` that could not be
/// rendered, or the number of elements when there is none.
pub open spec fn first_unrendered_from(elements: Seq<ModalElement>, from: int) -> int
    decreases elements.len() - from,
{
    if from < 0 || from >= elements.len() {
        elements.len() as int
    } else if elements[from].failure is Some {
        from
    } else {
        first_unrendered_from(elements, from + 1)
    }
}

/// The clickable regions of the first `count` elements, in order.
pub open spec fn modal_items(elements: Seq<ModalElement>, count: int) -> Seq<UiItem>
    decreases count,
{
    if count <= 0 {
        Seq::empty()
    } else {
        modal_items(elements, count - 1) + elements[count - 1].ui_items@
    }
}

/// The first unrendered element at or after `from` is where it says: every
/// element from `from` up to it was rendered, and it was not, unless it is
/// the end of the overlay.
pub proof fn lemma_first_unrendered(elements: Seq<ModalElement>, from: int)
    requires
        0 <= from <= elements.len(),
    ensures
        from <= first_unrendered_from(elements, from) <= elements.len(),
        forall|i: int|
            from <= i < first_unrendered_from(elements, from) ==> (#[trigger] elements[i]).failure
                is None,
        first_unrendered_from(elements, from) < elements.len() ==> elements[first_unrendered_from(
            elements,
            from,
        )].failure is Some,
    decreases elements.len() - from,
{
    if from < elements.len() && elements[from].failure is None {
        lemma_first_unrendered(elements, from + 1);
    }
}

impl TermWindow {
    /// Records the clickable regions of a modal overlay whose elements have
    /// been rendered in order.
    ///
    /// The regions of each element are added to those of the window, element
    /// by element, up to the first element that could not be rendered. That
    /// element, if there is one, is the error; its regions and those of the
    /// elements after it are left out. Without an overlay nothing changes.
    pub fn paint_modal(&mut self, modal: Option<&Vec<ModalElement>>) -> (res: Result<
        (),
        ModalFailure,
    >)
        ensures
            ({
                let elements = modal_elements(modal);
                let stop = first_unrendered_from(elements, 0);
                &&& final(self)@ == (TermWindowView {
                    ui_items: old(self)@.ui_items + modal_items(elements, stop),
                    ..old(self)@
                })
                &&& stop == elements.len() ==> res == Ok::<(), ModalFailure>(())
                &&& stop < elements.len() ==> res == Err::<(), ModalFailure>(
                    ModalFailure { element: stop as usize, cause: elements[stop].failure->0 },
                )
            }),
            res is Ok <==> forall|i: int|
                0 <= i < modal_elements(modal).len() ==> (#[trigger] modal_elements(
                    modal,
                )[i]).failure is None,
    {
        let ghost before = self@;
        proof {
            assert(before.ui_items + modal_items(modal_elements(modal), 0) =~= before.ui_items);
        }
        let elements = match modal {
            Some(elements) => elements,
            None => {
                return Ok(());
            },
        };
        let mut index: usize = 0;
        while index < elements.len()
            invariant
                index <= elements.len(),
                before == old(self)@,
                modal_elements(modal) == elements@,
                first_unrendered_from(elements@, 0) == first_unrendered_from(
                    elements@,
                    index as int,
                ),
                self@ == (TermWindowView {
                    ui_items: before.ui_items + modal_items(elements@, index as int),
                    ..before
                }),
            decreases elements.len() - index,
        {
            let element = &elements[index];
            match element.failure {
                Some(cause) => {
                    assert(first_unrendered_from(elements@, index as int) == index);
                    assert(modal_elements(modal)[index as int].failure is Some);
                    return Err(ModalFailure { element: index, cause });
                },
                None => {},
            }
            let mut item: usize = 0;
            while item < element.ui_items.len()
                invariant
                    item <= element.ui_items.len(),
                    self@ == (TermWindowView {
                        ui_items: before.ui_items + modal_items(elements@, index as int)
                            + element.ui_items@.take(item as int),
                        ..before
                    }),
                decreases element.ui_items.len() - item,
            {
                self.ui_items.push(element.ui_items[item]);
                proof {
                    assert(element.ui_items@.take(item as int).push(element.ui_items@[item as int])
                        =~= element.ui_items@.take(item + 1));
                    assert(self.ui_items@ =~= before.ui_items + modal_items(
                        elements@,
                        index as int,
                    ) + element.ui_items@.take(item + 1));
                }
                item = item + 1;
            }
            proof {
                assert(element.ui_items@.take(item as int) =~= element.ui_items@);
                assert(before.ui_items + modal_items(elements@, index as int) + element.ui_items@
                    =~= before.ui_items + modal_items(elements@, index + 1));
            }
            index = index + 1;
        }
        proof {
            lemma_first_unrendered(elements@, 0);
        }
        Ok(())
    }
}

} // verus!
