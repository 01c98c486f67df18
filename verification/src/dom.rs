//! A model of the host page's elements.
//!
//! The renderers' effects are stated and verified against this model: a page
//! is a finite list of elements, each identified by an id and carrying a text
//! content and a list of clickable post entries. The host environment mirrors
//! every verified mutation onto its real elements.

use vstd::prelude::*;

verus! {

/// One clickable list entry: its visible text and the two identifiers its
/// click behaviour is bound to (the post to fetch and the element to render
/// that post into).
pub struct ListItem {
    pub title: String,
    pub post_id: String,
    pub target_id: String,
}

/// The mathematical image of a [`ListItem`].
#[verifier::ext_equal]
pub ghost struct ListItemModel {
    pub title: Seq<char>,
    pub post_id: Seq<char>,
    pub target_id: Seq<char>,
}

impl View for ListItem {
    type V = ListItemModel;

    open spec fn view(&self) -> ListItemModel {
        ListItemModel { title: self.title@, post_id: self.post_id@, target_id: self.target_id@ }
    }
}

/// One element of the page: an id, a text content, and the list entries
/// appended to it.
pub struct Element {
    pub id: String,
    pub text: String,
    pub items: Vec<ListItem>,
}

/// The mathematical image of an [`Element`].
#[verifier::ext_equal]
pub ghost struct ElementModel {
    pub id: Seq<char>,
    pub text: Seq<char>,
    pub items: Seq<ListItemModel>,
}

impl View for Element {
    type V = ElementModel;

    open spec fn view(&self) -> ElementModel {
        ElementModel {
            id: self.id@,
            text: self.text@,
            items: self.items@.map_values(|it: ListItem| it@),
        }
    }
}

/// The page: a finite list of elements.
pub struct Dom {
    pub elements: Vec<Element>,
}

impl View for Dom {
    type V = Seq<ElementModel>;

    open spec fn view(&self) -> Seq<ElementModel> {
        self.elements@.map_values(|e: Element| e@)
    }
}

/// A well-formed page: element ids are distinct, so a lookup by id is
/// unambiguous.
pub open spec fn wf(d: Seq<ElementModel>) -> bool {
    forall|i: int, j: int| 0 <= i < j < d.len() ==> d[i].id != d[j].id
}

/// Whether the page holds an element with the given id.
pub open spec fn has_elem(d: Seq<ElementModel>, id: Seq<char>) -> bool {
    exists|i: int| 0 <= i < d.len() && d[i].id == id
}

/// The position of the element with the given id (meaningful under
/// [`has_elem`]; unique under [`wf`]).
pub open spec fn elem_index(d: Seq<ElementModel>, id: Seq<char>) -> int {
    choose|i: int| 0 <= i < d.len() && d[i].id == id
}

/// The text content of the element with the given id.
pub open spec fn text_of(d: Seq<ElementModel>, id: Seq<char>) -> Seq<char> {
    d[elem_index(d, id)].text
}

/// The list entries of the element with the given id.
pub open spec fn items_of(d: Seq<ElementModel>, id: Seq<char>) -> Seq<ListItemModel> {
    d[elem_index(d, id)].items
}

/// On a well-formed page, a position whose element carries the id is the
/// position every lookup by that id yields.
pub proof fn lemma_elem_index_unique(d: Seq<ElementModel>, id: Seq<char>, i: int)
    requires
        wf(d),
        0 <= i < d.len(),
        d[i].id == id,
    ensures
        has_elem(d, id),
        elem_index(d, id) == i,
{
    assert(has_elem(d, id));
    let j = elem_index(d, id);
    assert(0 <= j < d.len() && d[j].id == id);
    if i < j {
        assert(d[i].id != d[j].id);
    } else if j < i {
        assert(d[j].id != d[i].id);
    }
}

impl Dom {
    /// An empty page.
    pub fn new() -> (r: Dom)
        ensures
            r@ == Seq::<ElementModel>::empty(),
    {
        Dom { elements: Vec::new() }
    }

    /// Adds an empty element with the given id, which must be fresh.
    pub fn add_element(&mut self, id: String)
        requires
            !has_elem(old(self)@, id@),
        ensures
            final(self)@ == old(self)@.push(
                (ElementModel { id: id@, text: Seq::<char>::empty(), items: Seq::<ListItemModel>::empty() }),
            ),
            wf(old(self)@) ==> wf(final(self)@),
    {
        let ghost pre = self@;
        let ghost idv = id@;
        let elem = Element { id, text: String::new(), items: Vec::new() };
        let ghost em = elem@;
        self.elements.push(elem);
        proof {
            assert(em =~= (ElementModel {
                id: idv,
                text: Seq::<char>::empty(),
                items: Seq::<ListItemModel>::empty(),
            }));
            assert(self@ =~= pre.push(em));
            if wf(pre) {
                assert forall|i: int, j: int| 0 <= i < j < self@.len() implies self@[i].id
                    != self@[j].id by {
                    if j < pre.len() {
                        assert(pre[i].id != pre[j].id);
                    } else {
                        assert(self@[j].id == idv);
                        assert(self@[i].id == pre[i].id);
                        if pre[i].id == idv {
                            assert(has_elem(pre, idv));
                            assert(false);
                        }
                    }
                }
            }
        }
    }

    /// Looks an element up by id, as the host's element lookup does: the
    /// position of the element with that id, or nothing when the page has
    /// none.
    pub fn get_element_by_id(&self, id: &str) -> (r: Option<usize>)
        ensures
            match r {
                Some(i) => i < self@.len() && self@[i as int].id == id@ && has_elem(self@, id@),
                None => !has_elem(self@, id@),
            },
    {
        let key: String = id.to_owned();
        let n = self.elements.len();
        let mut i: usize = 0;
        while i < n
            invariant
                n == self@.len(),
                i <= n,
                key@ == id@,
                forall|j: int| 0 <= j < i ==> self@[j].id != id@,
            decreases n - i,
        {
            if self.elements[i].id == key {
                assert(self@[i as int].id == id@);
                return Some(i);
            }
            i += 1;
        }
        None
    }

    /// Replaces the text content of the element at the given position, as the
    /// host's text-setting primitive does.
    pub fn set_text_content(&mut self, i: usize, text: String)
        requires
            i < old(self)@.len(),
        ensures
            final(self)@ == old(self)@.update(
                i as int,
                (ElementModel { text: text@, ..old(self)@[i as int] }),
            ),
    {
        let ghost pre = self@;
        let mut elem = self.elements.remove(i);
        elem.text = text;
        let ghost em = elem@;
        self.elements.insert(i, elem);
        proof {
            assert(self@ =~= pre.update(i as int, em));
        }
    }

    /// Appends one list entry to the element at the given position, as the
    /// host's child-appending primitive does.
    pub fn append_item(&mut self, i: usize, item: ListItem)
        requires
            i < old(self)@.len(),
        ensures
            final(self)@ == old(self)@.update(
                i as int,
                (ElementModel {
                    items: old(self)@[i as int].items.push(item@),
                    ..old(self)@[i as int]
                }),
            ),
    {
        let ghost pre = self@;
        let ghost itm = item@;
        let mut elem = self.elements.remove(i);
        elem.items.push(item);
        let ghost em = elem@;
        self.elements.insert(i, elem);
        proof {
            assert(em.items =~= pre[i as int].items.push(itm));
            assert(self@ =~= pre.update(i as int, em));
        }
    }
}

} // verus!
