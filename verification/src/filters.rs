//! The search boxes and interest filters of the member and coupon lists.
use vstd::prelude::*;
use crate::cupon::CuponWithMember;
use crate::interest::Interest;
use crate::member::{Member, MemberWithInterests};
use crate::text::{contains_text, lowercase, text_contains, to_lowercase};

verus! {

/// An interest offered as a check box, and whether it is ticked.
#[derive(Debug, Clone)]
pub struct SelectableInterest {
    pub interest: Interest,
    pub selected: bool,
}

/// Whether the lower-cased search text is found in the member's full name,
/// e-mail, country or phone (an empty search finds every member).
pub open spec fn member_query_matches(m: Member, query: Seq<char>) -> bool {
    ||| query.len() == 0
    ||| text_contains(lowercase(m.full_name()), query)
    ||| text_contains(lowercase(m.email@), query)
    ||| text_contains(lowercase(m.country@), query)
    ||| text_contains(lowercase(m.phone@), query)
}

/// Whether one of `interests` has the id `id`.
pub open spec fn has_interest_id(interests: Seq<Interest>, id: Option<i32>) -> bool {
    exists|k: int| 0 <= k < interests.len() && #[trigger] interests[k].id == id
}

/// Whether the member has every selected interest (compared by id).
pub open spec fn has_all_interests(member_interests: Seq<Interest>, selected: Seq<Interest>) -> bool {
    forall|j: int| 0 <= j < selected.len() ==> has_interest_id(member_interests, #[trigger] selected[j].id)
}

/// The member list's filter: the search matches and every selected
/// interest is one of the member's.
pub open spec fn member_listed(m: MemberWithInterests, query: Seq<char>, selected: Seq<Interest>) -> bool {
    member_query_matches(m.member, query) && has_all_interests(m.interests@, selected)
}

/// The coupon list's filter: the search matches the coupon's member.
pub open spec fn cupon_listed(c: CuponWithMember, query: Seq<char>) -> bool {
    member_query_matches(c.member, query)
}

/// The interests whose box is ticked, in order.
pub fn selected_interests(items: &Vec<SelectableInterest>) -> (r: Vec<Interest>)
    ensures
        r@ == items@.filter(|s: SelectableInterest| s.selected).map_values(|s: SelectableInterest| s.interest),
{
    let ghost pred = |s: SelectableInterest| s.selected;
    let ghost f = |s: SelectableInterest| s.interest;
    let mut out: Vec<Interest> = Vec::new();
    let mut i: usize = 0;
    while i < items.len()
        invariant
            i <= items@.len(),
            pred == (|s: SelectableInterest| s.selected),
            f == (|s: SelectableInterest| s.interest),
            out@ == items@.take(i as int).filter(pred).map_values(f),
        decreases items@.len() - i,
    {
        let ghost before = items@.take(i as int);
        assert(items@.take(i + 1) =~= before.push(items@[i as int]));
        proof {
            before.lemma_filter_push(items@[i as int], pred);
        }
        if items[i].selected {
            out.push(items[i].interest.copy_of());
            assert(before.filter(pred).push(items@[i as int]).map_values(f) =~= before.filter(pred).map_values(f).push(items@[i as int].interest));
        }
        i = i + 1;
    }
    assert(items@.take(items@.len() as int) =~= items@);
    out
}

/// Whether the member's lower-cased full name, e-mail, country or phone contains the
/// query (which is already lower-cased); an empty query matches.
pub fn member_matches_query(m: &Member, query: &str) -> (r: bool)
    ensures
        r == member_query_matches(*m, query@),
{
    if query.is_empty() {
        return true;
    }
    let full_name = to_lowercase(m.get_full_name().as_str());
    if contains_text(full_name.as_str(), query) {
        return true;
    }
    let email = to_lowercase(m.email.as_str());
    if contains_text(email.as_str(), query) {
        return true;
    }
    let country = to_lowercase(m.country.as_str());
    if contains_text(country.as_str(), query) {
        return true;
    }
    let phone = to_lowercase(m.phone.as_str());
    contains_text(phone.as_str(), query)
}

/// Whether one of `interests` has the id `id`.
pub fn contains_interest_id(interests: &Vec<Interest>, id: Option<i32>) -> (r: bool)
    ensures
        r == has_interest_id(interests@, id),
{
    let mut k: usize = 0;
    while k < interests.len()
        invariant
            k <= interests@.len(),
            forall|j: int| 0 <= j < k ==> interests@[j].id != id,
        decreases interests@.len() - k,
    {
        if interests[k].id == id {
            return true;
        }
        k = k + 1;
    }
    false
}

/// Whether the member has every one of the selected interests.
pub fn has_selected_interests(member_interests: &Vec<Interest>, selected: &Vec<Interest>) -> (r: bool)
    ensures
        r == has_all_interests(member_interests@, selected@),
{
    let mut j: usize = 0;
    while j < selected.len()
        invariant
            j <= selected@.len(),
            forall|k: int| 0 <= k < j ==> has_interest_id(member_interests@, #[trigger] selected@[k].id),
        decreases selected@.len() - j,
    {
        if !contains_interest_id(member_interests, selected[j].id) {
            return false;
        }
        j = j + 1;
    }
    true
}

/// The members the list shows for a search text and the ticked interests:
/// those whose full name, e-mail, country or phone contains the lower-cased search
/// text and who have every ticked interest, in their order.
pub fn filter_members(members: Vec<MemberWithInterests>, search: &str, selected: &Vec<Interest>) -> (r: Vec<MemberWithInterests>)
    ensures
        r@ == members@.filter(|m: MemberWithInterests| member_listed(m, lowercase(search@), selected@)),
{
    let query = to_lowercase(search);
    let ghost pred = |m: MemberWithInterests| member_listed(m, lowercase(search@), selected@);
    let ghost all = members@;
    let mut out: Vec<MemberWithInterests> = Vec::new();
    for m in it: members.into_iter()
        invariant
            query@ == lowercase(search@),
            pred == (|m: MemberWithInterests| member_listed(m, lowercase(search@), selected@)),
            it.seq() == all,
            out@ == all.take(it.index() as int).filter(pred),
    {
        let ghost i = it.index();
        assert(all.take(i + 1) =~= all.take(i).push(m));
        proof {
            all.take(i).lemma_filter_push(m, pred);
        }
        if member_matches_query(&m.member, query.as_str()) && has_selected_interests(&m.interests, selected) {
            out.push(m);
        }
    }
    assert(all.take(all.len() as int) =~= all);
    out
}

/// The coupons the coupon check shows for a search text: those whose
/// member's full name, e-mail, country or phone contains the lower-cased text.
pub fn filter_cupons(cupons: Vec<CuponWithMember>, search: &str) -> (r: Vec<CuponWithMember>)
    ensures
        r@ == cupons@.filter(|c: CuponWithMember| cupon_listed(c, lowercase(search@))),
{
    let query = to_lowercase(search);
    let ghost pred = |c: CuponWithMember| cupon_listed(c, lowercase(search@));
    let ghost all = cupons@;
    let mut out: Vec<CuponWithMember> = Vec::new();
    for c in it: cupons.into_iter()
        invariant
            query@ == lowercase(search@),
            pred == (|c: CuponWithMember| cupon_listed(c, lowercase(search@))),
            it.seq() == all,
            out@ == all.take(it.index() as int).filter(pred),
    {
        let ghost i = it.index();
        assert(all.take(i + 1) =~= all.take(i).push(c));
        proof {
            all.take(i).lemma_filter_push(c, pred);
        }
        if member_matches_query(&c.member, query.as_str()) {
            out.push(c);
        }
    }
    assert(all.take(all.len() as int) =~= all);
    out
}

/// With no search text and no ticked interest, the member list keeps every
/// member, in order.
pub proof fn lemma_empty_filter_keeps_all(members: Seq<MemberWithInterests>)
    ensures
        members.filter(|m: MemberWithInterests| member_listed(m, Seq::empty(), Seq::empty())) == members,
    decreases members.len(),
{
    let pred = |m: MemberWithInterests| member_listed(m, Seq::empty(), Seq::empty());
    if members.len() > 0 {
        lemma_empty_filter_keeps_all(members.drop_last());
        members.drop_last().lemma_filter_push(members.last(), pred);
        assert(members.drop_last().push(members.last()) =~= members);
    } else {
        assert(members.filter(pred) =~= members);
    }
}

/// With an empty search, the coupon check keeps every coupon, in order.
pub proof fn lemma_empty_search_keeps_all_cupons(cupons: Seq<CuponWithMember>)
    ensures
        cupons.filter(|c: CuponWithMember| cupon_listed(c, Seq::empty())) == cupons,
    decreases cupons.len(),
{
    let pred = |c: CuponWithMember| cupon_listed(c, Seq::empty());
    if cupons.len() > 0 {
        lemma_empty_search_keeps_all_cupons(cupons.drop_last());
        cupons.drop_last().lemma_filter_push(cupons.last(), pred);
        assert(cupons.drop_last().push(cupons.last()) =~= cupons);
    } else {
        assert(cupons.filter(pred) =~= cupons);
    }
}

/// The search ignores case: whether a member matches a search depends on
/// the member's full name, e-mail, country and phone only through their
/// lower-case forms, so two members whose fields lower-case alike match the
/// same searches.
pub proof fn lemma_search_ignores_case(a: Member, b: Member, query: Seq<char>)
    requires
        lowercase(a.full_name()) == lowercase(b.full_name()),
        lowercase(a.email@) == lowercase(b.email@),
        lowercase(a.country@) == lowercase(b.country@),
        lowercase(a.phone@) == lowercase(b.phone@),
    ensures
        member_query_matches(a, query) == member_query_matches(b, query),
{
}

/// A member whose lower-cased e-mail (or name, country or phone) contains
/// the search is listed, whatever the case of the stored text.
pub proof fn lemma_search_finds_lowercased_fields(m: Member, query: Seq<char>)
    ensures
        text_contains(lowercase(m.email@), query) ==> member_query_matches(m, query),
        text_contains(lowercase(m.full_name()), query) ==> member_query_matches(m, query),
        text_contains(lowercase(m.country@), query) ==> member_query_matches(m, query),
        text_contains(lowercase(m.phone@), query) ==> member_query_matches(m, query),
{
}

} // verus!
