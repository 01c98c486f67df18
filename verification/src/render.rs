//! The renderers: the list renderer, the post renderer, and the entry point.
//!
//! Each renderer's effect on the page is stated over the model of
//! [`crate::dom`]. A missing container element, and an absent post reaching a
//! post render, are fatal precondition violations: the call reports them and
//! leaves the rest of the page untouched.

use vstd::prelude::*;
use crate::catalog::PostSummary;
use crate::catalog::PostSummaryModel;
use crate::catalog::catalog;
use crate::catalog::get_post_summaries;
use crate::dom::Dom;
use crate::dom::ElementModel;
use crate::dom::ListItem;
use crate::dom::ListItemModel;
use crate::dom::elem_index;
use crate::dom::has_elem;
use crate::dom::items_of;
use crate::dom::lemma_elem_index_unique;
use crate::dom::text_of;
use crate::dom::wf;

verus! {

/// Why a render call aborted.
#[derive(Clone, Copy, PartialEq, Eq, Structural, Debug)]
pub enum RenderError {
    /// A given container id resolved to no element of the page.
    MissingElement,
    /// The fetch a post render awaited collapsed to "absent".
    PostUnavailable,
}

/// The list entry one catalog entry gives rise to: visible text equal to the
/// entry's title, click behaviour bound to the entry's id and to the post
/// container.
pub open spec fn entry_item(p: PostSummaryModel, target_id: Seq<char>) -> ListItemModel {
    ListItemModel { title: p.title, post_id: p.id, target_id: target_id }
}

/// The page after the list renderer succeeded: the list element's entries are
/// extended by one entry per catalog entry, in catalog order; everything else
/// is unchanged.
pub open spec fn spec_render_list(
    d: Seq<ElementModel>,
    list_id: Seq<char>,
    target_id: Seq<char>,
) -> Seq<ElementModel> {
    let i = elem_index(d, list_id);
    d.update(
        i,
        (ElementModel {
            items: d[i].items + catalog().map_values(|p: PostSummaryModel| entry_item(p, target_id)),
            ..d[i]
        }),
    )
}

/// The page after a post render wrote text into its container: that element's
/// text content is replaced, everything else is unchanged.
pub open spec fn spec_set_post_text(
    d: Seq<ElementModel>,
    container_id: Seq<char>,
    text: Seq<char>,
) -> Seq<ElementModel> {
    let i = elem_index(d, container_id);
    d.update(i, (ElementModel { text: text, ..d[i] }))
}

/// Replacing one element by one with the same id keeps the page well-formed.
pub proof fn lemma_update_same_id_preserves_wf(d: Seq<ElementModel>, i: int, e: ElementModel)
    requires
        wf(d),
        0 <= i < d.len(),
        e.id == d[i].id,
    ensures
        wf(d.update(i, e)),
{
    let d2 = d.update(i, e);
    assert forall|a: int, b: int| 0 <= a < b < d2.len() implies d2[a].id != d2[b].id by {
        assert(d[a].id != d[b].id);
        assert(d2[a].id == d[a].id);
        assert(d2[b].id == d[b].id);
    }
}

/// Replacing one element by one with the same id changes no lookup: the same
/// ids are present, at the same positions.
pub proof fn lemma_update_same_id_preserves_lookup(
    d: Seq<ElementModel>,
    i: int,
    e: ElementModel,
    x: Seq<char>,
)
    requires
        wf(d),
        0 <= i < d.len(),
        e.id == d[i].id,
    ensures
        has_elem(d.update(i, e), x) == has_elem(d, x),
        has_elem(d, x) ==> elem_index(d.update(i, e), x) == elem_index(d, x),
{
    let d2 = d.update(i, e);
    lemma_update_same_id_preserves_wf(d, i, e);
    if has_elem(d, x) {
        let w = elem_index(d, x);
        assert(0 <= w < d.len() && d[w].id == x);
        assert(d2[w].id == x);
        lemma_elem_index_unique(d2, x, w);
    }
    if has_elem(d2, x) {
        let w = elem_index(d2, x);
        assert(0 <= w < d2.len() && d2[w].id == x);
        assert(d[w].id == x);
        assert(has_elem(d, x));
    }
}

/// Builds the list entry for one catalog entry: its visible text is the
/// post's title, and its click behaviour is bound to the post's id and to the
/// post container's id.
pub fn create_post_list_element(post: &PostSummary, post_element_id: &str) -> (r: ListItem)
    ensures
        r@ == entry_item(post@, post_element_id@),
{
    ListItem {
        title: post.title.clone(),
        post_id: post.id.clone(),
        target_id: post_element_id.to_owned(),
    }
}

/// Renders the post list: appends, to the element `list_element_id` names,
/// one clickable entry per catalog entry, in catalog order, each bound to its
/// post's id and to `post_element_id`.
///
/// A missing list element is fatal: the call reports it and changes nothing.
pub fn render_posts_list(
    dom: &mut Dom,
    list_element_id: &str,
    post_element_id: &str,
) -> (r: Result<(), RenderError>)
    requires
        wf(old(dom)@),
    ensures
        wf(final(dom)@),
        r is Ok <==> has_elem(old(dom)@, list_element_id@),
        r is Err ==> r == Err::<(), RenderError>(RenderError::MissingElement) && final(dom)@
            == old(dom)@,
        r is Ok ==> final(dom)@ == spec_render_list(
            old(dom)@,
            list_element_id@,
            post_element_id@,
        ),
{
    let ghost d0 = dom@;
    let ghost lid = list_element_id@;
    let ghost tid = post_element_id@;
    let idx = match dom.get_element_by_id(list_element_id) {
        Some(i) => i,
        None => {
            return Err(RenderError::MissingElement);
        },
    };
    proof {
        lemma_elem_index_unique(d0, lid, idx as int);
    }
    let posts = get_post_summaries();
    let n = posts.len();
    let mut k: usize = 0;
    while k < n
        invariant
            d0 == old(dom)@,
            lid == list_element_id@,
            tid == post_element_id@,
            wf(d0),
            k <= n,
            n == posts@.len(),
            posts@.map_values(|p: PostSummary| p@) == catalog(),
            idx < d0.len(),
            d0[idx as int].id == lid,
            elem_index(d0, lid) == idx as int,
            dom@.len() == d0.len(),
            forall|j: int| 0 <= j < d0.len() && j != idx as int ==> dom@[j] == d0[j],
            dom@[idx as int].id == d0[idx as int].id,
            dom@[idx as int].text == d0[idx as int].text,
            dom@[idx as int].items == d0[idx as int].items + catalog().subrange(
                0,
                k as int,
            ).map_values(|p: PostSummaryModel| entry_item(p, tid)),
        decreases n - k,
    {
        let ghost pre = dom@;
        let item = create_post_list_element(&posts[k], post_element_id);
        proof {
            assert(posts@.map_values(|p: PostSummary| p@)[k as int] == posts@[k as int]@);
            assert(item@ == entry_item(catalog()[k as int], tid));
        }
        dom.append_item(idx, item);
        k += 1;
        proof {
            assert(catalog().subrange(0, k as int).map_values(
                |p: PostSummaryModel| entry_item(p, tid),
            ) =~= catalog().subrange(0, k as int - 1).map_values(
                |p: PostSummaryModel| entry_item(p, tid),
            ).push(entry_item(catalog()[k as int - 1], tid)));
            assert(dom@[idx as int].items =~= d0[idx as int].items + catalog().subrange(
                0,
                k as int,
            ).map_values(|p: PostSummaryModel| entry_item(p, tid)));
        }
    }
    proof {
        assert(catalog().subrange(0, n as int) =~= catalog());
        assert(dom@[idx as int] =~= spec_render_list(d0, lid, tid)[idx as int]);
        assert(dom@ =~= spec_render_list(d0, lid, tid));
        lemma_update_same_id_preserves_wf(
            d0,
            idx as int,
            (ElementModel {
                items: d0[idx as int].items + catalog().map_values(
                    |p: PostSummaryModel| entry_item(p, tid),
                ),
                ..d0[idx as int]
            }),
        );
    }
    Ok(())
}

/// Renders one post: writes the fetched text into the element `element_id`
/// names, verbatim.
///
/// The fetch's outcome is handed in by the caller, which performed it. A
/// missing container element, or an absent outcome, is fatal: the call
/// reports it and changes nothing. The container is resolved first, so a
/// missing element is reported even when the post is also absent.
pub fn render_post(
    dom: &mut Dom,
    element_id: &str,
    fetched: Option<String>,
) -> (r: Result<(), RenderError>)
    requires
        wf(old(dom)@),
    ensures
        wf(final(dom)@),
        r is Ok <==> has_elem(old(dom)@, element_id@) && fetched is Some,
        !has_elem(old(dom)@, element_id@) ==> r == Err::<(), RenderError>(
            RenderError::MissingElement,
        ) && final(dom)@ == old(dom)@,
        has_elem(old(dom)@, element_id@) && fetched is None ==> r == Err::<(), RenderError>(
            RenderError::PostUnavailable,
        ) && final(dom)@ == old(dom)@,
        r is Ok ==> final(dom)@ == spec_set_post_text(old(dom)@, element_id@, fetched->0@),
{
    let ghost d0 = dom@;
    let idx = match dom.get_element_by_id(element_id) {
        Some(i) => i,
        None => {
            return Err(RenderError::MissingElement);
        },
    };
    proof {
        lemma_elem_index_unique(d0, element_id@, idx as int);
    }
    let text = match fetched {
        Some(t) => t,
        None => {
            return Err(RenderError::PostUnavailable);
        },
    };
    let ghost tv = text@;
    dom.set_text_content(idx, text);
    proof {
        assert(dom@[idx as int] =~= spec_set_post_text(d0, element_id@, tv)[idx as int]);
        assert(dom@ =~= spec_set_post_text(d0, element_id@, tv));
        lemma_update_same_id_preserves_wf(
            d0,
            idx as int,
            (ElementModel { text: tv, ..d0[idx as int] }),
        );
    }
    Ok(())
}

/// The entry point: renders the post list, then renders the initial post into
/// the post container.
///
/// The initial post's fetch outcome is handed in by the caller, which
/// performed the fetch. Failure of either step is propagated; the list
/// renderer's work is kept even when the post render then fails.
pub fn render(
    dom: &mut Dom,
    list_element_id: &str,
    post_element_id: &str,
    initial_fetched: Option<String>,
) -> (r: Result<(), RenderError>)
    requires
        wf(old(dom)@),
    ensures
        wf(final(dom)@),
        r is Ok <==> has_elem(old(dom)@, list_element_id@) && has_elem(
            old(dom)@,
            post_element_id@,
        ) && initial_fetched is Some,
        r is Ok ==> final(dom)@ == spec_set_post_text(
            spec_render_list(old(dom)@, list_element_id@, post_element_id@),
            post_element_id@,
            initial_fetched->0@,
        ),
        !has_elem(old(dom)@, list_element_id@) ==> r == Err::<(), RenderError>(
            RenderError::MissingElement,
        ) && final(dom)@ == old(dom)@,
        has_elem(old(dom)@, list_element_id@) && !has_elem(old(dom)@, post_element_id@) ==> r
            == Err::<(), RenderError>(RenderError::MissingElement) && final(dom)@
            == spec_render_list(old(dom)@, list_element_id@, post_element_id@),
        has_elem(old(dom)@, list_element_id@) && has_elem(old(dom)@, post_element_id@)
            && initial_fetched is None ==> r == Err::<(), RenderError>(
            RenderError::PostUnavailable,
        ) && final(dom)@ == spec_render_list(old(dom)@, list_element_id@, post_element_id@),
{
    let ghost d0 = dom@;
    let ghost lid = list_element_id@;
    let ghost pid = post_element_id@;
    match render_posts_list(dom, list_element_id, post_element_id) {
        Ok(()) => {},
        Err(e) => {
            return Err(e);
        },
    }
    proof {
        let i = elem_index(d0, lid);
        lemma_update_same_id_preserves_lookup(
            d0,
            i,
            (ElementModel {
                items: d0[i].items + catalog().map_values(|p: PostSummaryModel| entry_item(p, pid)),
                ..d0[i]
            }),
            pid,
        );
    }
    match render_post(dom, post_element_id, initial_fetched) {
        Ok(()) => {},
        Err(e) => {
            return Err(e);
        },
    }
    Ok(())
}

/// Exactly one entry per catalog entry, in catalog order: after the list
/// renderer succeeds, the list element's entries are its old ones followed by
/// one entry per catalog entry, whose visible text is that entry's title and
/// whose click behaviour is bound to that entry's id and to the post
/// container.
pub proof fn lemma_list_matches_catalog(d: Seq<ElementModel>, list_id: Seq<char>, target_id: Seq<char>)
    requires
        wf(d),
        has_elem(d, list_id),
    ensures
        items_of(spec_render_list(d, list_id, target_id), list_id).len() == items_of(d, list_id).len()
            + catalog().len(),
        forall|k: int| 0 <= k < catalog().len() ==> items_of(
            spec_render_list(d, list_id, target_id),
            list_id,
        )[items_of(d, list_id).len() + k] == entry_item(catalog()[k], target_id),
        forall|k: int| 0 <= k < items_of(d, list_id).len() ==> items_of(
            spec_render_list(d, list_id, target_id),
            list_id,
        )[k] == items_of(d, list_id)[k],
{
    let i = elem_index(d, list_id);
    assert(0 <= i < d.len() && d[i].id == list_id);
    let e = ElementModel {
        items: d[i].items + catalog().map_values(|p: PostSummaryModel| entry_item(p, target_id)),
        ..d[i]
    };
    lemma_update_same_id_preserves_lookup(d, i, e, list_id);
}

/// Last write wins: when two post renders resolve against the same container
/// one after the other, the container ends with the later-resolving one's
/// text, whatever the earlier one wrote.
pub proof fn lemma_last_write_wins(
    d: Seq<ElementModel>,
    container_id: Seq<char>,
    first: Seq<char>,
    second: Seq<char>,
)
    requires
        wf(d),
        has_elem(d, container_id),
    ensures
        text_of(
            spec_set_post_text(spec_set_post_text(d, container_id, first), container_id, second),
            container_id,
        ) == second,
{
    let i = elem_index(d, container_id);
    assert(0 <= i < d.len() && d[i].id == container_id);
    let e1 = ElementModel { text: first, ..d[i] };
    lemma_update_same_id_preserves_wf(d, i, e1);
    lemma_update_same_id_preserves_lookup(d, i, e1, container_id);
    let d1 = spec_set_post_text(d, container_id, first);
    let e2 = ElementModel { text: second, ..d1[i] };
    lemma_update_same_id_preserves_lookup(d1, i, e2, container_id);
}

} // verus!
