//! Keyword groups kept in the configuration: named sets of patterns with a
//! highlight colour, added, changed and removed by their identifier.
use vstd::prelude::*;
use crate::api::{term_views, ApiResponse, KeywordGroupRequest};
use crate::paths::new_uuid_v4_string;
use crate::text::{push_str, str_eq};

verus! {

/// A keyword group as the configuration stores it.
pub struct KeywordGroup {
    pub id: String,
    pub name: String,
    pub patterns: Vec<String>,
    pub color: String,
    pub enabled: bool,
}

/// What a group holds, as plain values.
pub struct GroupView {
    pub id: Seq<char>,
    pub name: Seq<char>,
    pub patterns: Seq<Seq<char>>,
    pub color: Seq<char>,
    pub enabled: bool,
}

pub open spec fn group_view(g: KeywordGroup) -> GroupView {
    GroupView {
        id: g.id@,
        name: g.name@,
        patterns: term_views(g.patterns@),
        color: g.color@,
        enabled: g.enabled,
    }
}

pub open spec fn groups_view(gs: Seq<KeywordGroup>) -> Seq<GroupView> {
    gs.map_values(|g: KeywordGroup| group_view(g))
}

/// The colour of a group whose request names none.
pub open spec fn default_group_color() -> Seq<char> {
    "#FF5722"@
}

/// The group a request creates under `id`: a missing colour is the default
/// one, a missing switch means enabled.
pub open spec fn requested_group(id: Seq<char>, req: KeywordGroupRequest) -> GroupView {
    GroupView {
        id,
        name: req.name@,
        patterns: term_views(req.patterns@),
        color: match req.color {
            Some(c) => c@,
            None => default_group_color(),
        },
        enabled: match req.enabled {
            Some(e) => e,
            None => true,
        },
    }
}

/// A group after an update: name and patterns are replaced; colour and
/// switch only when the request gives them.
pub open spec fn updated_group(g: GroupView, req: KeywordGroupRequest) -> GroupView {
    GroupView {
        id: g.id,
        name: req.name@,
        patterns: term_views(req.patterns@),
        color: match req.color {
            Some(c) => c@,
            None => g.color,
        },
        enabled: match req.enabled {
            Some(e) => e,
            None => g.enabled,
        },
    }
}

/// Whether some group has the identifier.
pub open spec fn has_group(gs: Seq<GroupView>, id: Seq<char>) -> bool {
    exists|k: int| 0 <= k < gs.len() && (#[trigger] gs[k]).id == id
}

/// The groups whose identifier differs from `id`, in order.
pub open spec fn without_group(gs: Seq<GroupView>, id: Seq<char>) -> Seq<GroupView>
    decreases gs.len(),
{
    if gs.len() == 0 {
        Seq::empty()
    } else if gs.last().id == id {
        without_group(gs.drop_last(), id)
    } else {
        without_group(gs.drop_last(), id).push(gs.last())
    }
}

/// Builds the group a request asks for, under the identifier `id`.
pub fn new_keyword_group(id: String, req: KeywordGroupRequest) -> (g: KeywordGroup)
    ensures
        group_view(g) == requested_group(id@, req),
{
    let KeywordGroupRequest { name, patterns, color, enabled } = req;
    let color = match color {
        Some(c) => c,
        None => "#FF5722".to_string(),
    };
    let enabled = match enabled {
        Some(e) => e,
        None => true,
    };
    proof {
        reveal_strlit("#FF5722");
    }
    KeywordGroup { id, name, patterns, color, enabled }
}

/// Adds the group a request asks for under a fresh random identifier, and
/// gives that identifier back.
pub fn add_keyword_group(groups: &mut Vec<KeywordGroup>, req: KeywordGroupRequest) -> (id: String)
    ensures
        groups_view(final(groups)@) == groups_view(old(groups)@).push(requested_group(id@, req)),
        crate::paths::is_uuid_v4_text(id@),
{
    let id = new_uuid_v4_string();
    let g = new_keyword_group(id.clone(), req);
    let ghost before = groups@;
    groups.push(g);
    assert(groups_view(groups@) =~= groups_view(before).push(requested_group(id@, req)));
    id
}

/// Applies a request to the first group with the identifier; the others are
/// left as they are. Whether such a group was found is returned.
pub fn update_keyword_group(groups: &mut Vec<KeywordGroup>, id: &str, req: KeywordGroupRequest) -> (found: bool)
    ensures
        found == has_group(groups_view(old(groups)@), id@),
        !found ==> groups_view(final(groups)@) == groups_view(old(groups)@),
        found ==> exists|k: int|
            0 <= k < old(groups)@.len() && (#[trigger] groups_view(old(groups)@)[k]).id == id@
                && (forall|j: int| 0 <= j < k ==> groups_view(old(groups)@)[j].id != id@)
                && groups_view(final(groups)@) == groups_view(old(groups)@).update(
                k,
                updated_group(groups_view(old(groups)@)[k], req),
            ),
{
    let ghost old_view = groups_view(groups@);
    let mut i: usize = 0;
    while i < groups.len()
        invariant
            i <= groups@.len(),
            old_view == groups_view(old(groups)@),
            groups_view(groups@) == old_view,
            forall|j: int| 0 <= j < i ==> old_view[j].id != id@,
        decreases groups.len() - i,
    {
        if str_eq(groups[i].id.as_str(), id) {
            let KeywordGroupRequest { name, patterns, color, enabled } = req;
            let ghost before = groups@;
            let ghost target = old_view[i as int];
            let mut g = groups.remove(i);
            g.name = name;
            g.patterns = patterns;
            if let Some(c) = color {
                g.color = c;
            }
            if let Some(e) = enabled {
                g.enabled = e;
            }
            assert(group_view(g) == updated_group(target, req));
            groups.insert(i, g);
            assert(groups@ =~= before.update(i as int, g));
            assert(groups_view(groups@) =~= old_view.update(i as int, updated_group(target, req)));
            assert(old_view[i as int].id == id@);
            assert(has_group(old_view, id@));
            return true;
        }
        i = i + 1;
    }
    false
}

proof fn lemma_without_push(gs: Seq<GroupView>, g: GroupView, id: Seq<char>)
    ensures
        without_group(gs.push(g), id) == if g.id == id {
            without_group(gs, id)
        } else {
            without_group(gs, id).push(g)
        },
{
    assert(gs.push(g).drop_last() =~= gs);
}

proof fn lemma_without_len(gs: Seq<GroupView>, id: Seq<char>)
    ensures
        without_group(gs, id).len() <= gs.len(),
        without_group(gs, id).len() == gs.len() <==> !has_group(gs, id),
    decreases gs.len(),
{
    if gs.len() > 0 {
        lemma_without_len(gs.drop_last(), id);
        if has_group(gs.drop_last(), id) {
            let k = choose|k: int| 0 <= k < gs.drop_last().len() && (#[trigger] gs.drop_last()[k]).id == id;
            assert(gs[k] == gs.drop_last()[k]);
        }
        if has_group(gs, id) && gs.last().id != id {
            let k = choose|k: int| 0 <= k < gs.len() && (#[trigger] gs[k]).id == id;
            assert(k < gs.len() - 1);
            assert(gs.drop_last()[k] == gs[k]);
        }
        if gs.last().id == id {
            assert(has_group(gs, id)) by {
                assert(gs[gs.len() - 1].id == id);
            }
        }
    }
}

/// Removes every group with the identifier; the others keep their order.
/// Whether any was removed is returned.
pub fn delete_keyword_group(groups: &mut Vec<KeywordGroup>, id: &str) -> (removed: bool)
    ensures
        groups_view(final(groups)@) == without_group(groups_view(old(groups)@), id@),
        removed == has_group(groups_view(old(groups)@), id@),
{
    let ghost old_view = groups_view(groups@);
    let initial_len = groups.len();
    let ghost mut j: int = 0;
    let mut i: usize = 0;
    assert(old_view.take(0) =~= Seq::<GroupView>::empty());
    assert(old_view.skip(0) =~= old_view);
    while i < groups.len()
        invariant
            0 <= j <= old_view.len(),
            old_view.len() == initial_len,
            groups_view(groups@) == without_group(old_view.take(j), id@) + old_view.skip(j),
            i == without_group(old_view.take(j), id@).len(),
        decreases groups.len() - i,
    {
        let ghost before = groups@;
        proof {
            assert(groups_view(before).len() == before.len());
            assert(j < old_view.len());
            assert(groups_view(before)[i as int] == old_view[j]);
            assert(old_view.take(j + 1) =~= old_view.take(j).push(old_view[j]));
            lemma_without_push(old_view.take(j), old_view[j], id@);
            assert(old_view.skip(j) =~= seq![old_view[j]] + old_view.skip(j + 1));
        }
        if str_eq(groups[i].id.as_str(), id) {
            groups.remove(i);
            proof {
                assert(groups_view(groups@) =~= groups_view(before).remove(i as int));
                assert(groups_view(groups@) =~= without_group(old_view.take(j + 1), id@) + old_view.skip(
                    j + 1,
                ));
            }
        } else {
            i = i + 1;
            proof {
                assert(groups_view(groups@) =~= without_group(old_view.take(j + 1), id@) + old_view.skip(
                    j + 1,
                ));
            }
        }
        proof {
            j = j + 1;
        }
    }
    proof {
        assert(j == old_view.len());
        assert(old_view.take(j) =~= old_view);
        assert(groups_view(groups@) =~= without_group(old_view, id@));
        lemma_without_len(old_view, id@);
    }
    groups.len() < initial_len
}

/// The answer when no group has the identifier.
pub fn keyword_group_not_found(id: &str) -> (r: ApiResponse<bool>)
    ensures
        !r.success,
        r.data is None,
        r.error matches Some(e) && e@ == "Keyword group not found: "@ + id@,
{
    let mut m = String::new();
    push_str(&mut m, "Keyword group not found: ");
    push_str(&mut m, id);
    ApiResponse { success: false, data: None, error: Some(m) }
}

proof fn lemma_without_absent(gs: Seq<GroupView>, id: Seq<char>)
    requires
        !has_group(gs, id),
    ensures
        without_group(gs, id) == gs,
    decreases gs.len(),
{
    if gs.len() > 0 {
        assert(gs.last() == gs[gs.len() - 1]);
        assert forall|k: int| 0 <= k < gs.drop_last().len() implies (#[trigger] gs.drop_last()[k]).id
            != id by {
            assert(gs.drop_last()[k] == gs[k]);
        }
        lemma_without_absent(gs.drop_last(), id);
        assert(gs.drop_last().push(gs.last()) =~= gs);
    }
}

proof fn lemma_without_has_none(gs: Seq<GroupView>, id: Seq<char>)
    ensures
        !has_group(without_group(gs, id), id),
    decreases gs.len(),
{
    if gs.len() > 0 {
        lemma_without_has_none(gs.drop_last(), id);
        let w = without_group(gs.drop_last(), id);
        if gs.last().id != id {
            assert forall|k: int| 0 <= k < w.push(gs.last()).len() implies (#[trigger] w.push(
                gs.last(),
            )[k]).id != id by {
                if k < w.len() {
                    assert(w.push(gs.last())[k] == w[k]);
                }
            }
        }
    }
}

/// Deleting a group that was just added under a new identifier gives back
/// the groups as they were before the addition.
pub proof fn law_delete_undoes_add(gs: Seq<GroupView>, id: Seq<char>, req: KeywordGroupRequest)
    requires
        !has_group(gs, id),
    ensures
        without_group(gs.push(requested_group(id, req)), id) == gs,
{
    lemma_without_push(gs, requested_group(id, req), id);
    lemma_without_absent(gs, id);
}

/// After a deletion no group has the identifier, so deleting it again
/// changes nothing.
pub proof fn law_delete_is_complete(gs: Seq<GroupView>, id: Seq<char>)
    ensures
        !has_group(without_group(gs, id), id),
        without_group(without_group(gs, id), id) == without_group(gs, id),
{
    lemma_without_has_none(gs, id);
    lemma_without_absent(without_group(gs, id), id);
}

/// An update keeps the number of groups and every identifier.
pub proof fn law_update_keeps_identifiers(gs: Seq<GroupView>, k: int, req: KeywordGroupRequest)
    requires
        0 <= k < gs.len(),
    ensures
        gs.update(k, updated_group(gs[k], req)).len() == gs.len(),
        forall|j: int| 0 <= j < gs.len() ==> (#[trigger] gs.update(k, updated_group(gs[k], req))[j]).id
            == gs[j].id,
{
}

/// An update applies the request to the group it found: the name and the
/// patterns become the request's, the colour and the switch become the
/// request's when it gives them and stay otherwise, the identifier stays,
/// and every other group is left as it was.
pub proof fn law_update_applies_request(gs: Seq<GroupView>, k: int, req: KeywordGroupRequest)
    requires
        0 <= k < gs.len(),
    ensures
        ({
            let after = gs.update(k, updated_group(gs[k], req));
            &&& after[k].id == gs[k].id
            &&& after[k].name == req.name@
            &&& after[k].patterns.len() == req.patterns@.len()
            &&& forall|i: int| 0 <= i < req.patterns@.len() ==> #[trigger] after[k].patterns[i]
                == req.patterns@[i]@
            &&& after[k].color == match req.color {
                Some(c) => c@,
                None => gs[k].color,
            }
            &&& after[k].enabled == match req.enabled {
                Some(e) => e,
                None => gs[k].enabled,
            }
            &&& forall|j: int| 0 <= j < gs.len() && j != k ==> #[trigger] after[j] == gs[j]
        }),
{
}

} // verus!
