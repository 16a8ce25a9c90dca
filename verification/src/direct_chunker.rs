//! Raw-source conversions of entity groups: each member becomes a
//! conversion of its own source slice, blank slices are skipped, and every
//! group gets a header conversion (its own source when no member has one,
//! otherwise its name).

use vstd::prelude::*;
use vstd::utf8::{decode_utf8, is_char_boundary};
use vstd::string::StringSliceAdditionalSpecFns;
use crate::text::{chars_of, trim_chars, trim_spec};

verus! {

broadcast use vstd::utf8::encode_utf8_decode_utf8;

/// A member of an entity group: its entity id, its name and the byte span
/// recorded for it, if any.
pub struct MemberSpec {
    pub id: i64,
    pub name: String,
    pub span: Option<(usize, usize)>,
}

/// An entity group: its header entity, member ids, the entity its span
/// map yields first (if the map has one), its byte span and name, and its
/// members in order.
pub struct GroupSpec {
    pub header_id: Option<i64>,
    pub member_ids: Vec<i64>,
    pub first_span_entity: Option<i64>,
    pub span: (usize, usize),
    pub name: String,
    pub members: Vec<MemberSpec>,
}

/// One raw-source conversion: the entity, the member it stands for (none
/// for the group header), the name and the source text.
pub struct ConversionPlan {
    pub entity_id: i64,
    pub member: Option<usize>,
    pub name: String,
    pub source: String,
}

/// The conversions of one group: its header and its members.
pub struct GroupPlan {
    pub header: ConversionPlan,
    pub members: Vec<ConversionPlan>,
}

/// A conversion as values.
pub type PlanView = (i64, Option<usize>, Seq<char>, Seq<char>);

pub open spec fn plan_view(p: ConversionPlan) -> PlanView {
    (p.entity_id, p.member, p.name@, p.source@)
}

pub open spec fn plan_views(ps: Seq<ConversionPlan>) -> Seq<PlanView> {
    ps.map_values(|p: ConversionPlan| plan_view(p))
}

pub open spec fn group_plan_view(g: Option<GroupPlan>) -> Option<(PlanView, Seq<PlanView>)> {
    match g {
        Some(p) => Some((plan_view(p.header), plan_views(p.members@))),
        None => None,
    }
}

/// The bytes `start..end` of a source text, when `end` and then `start`
/// (within the first `end` bytes) fall on character boundaries and
/// `start <= end`.
pub open spec fn byte_slice(bytes: Seq<u8>, start: usize, end: usize) -> Option<Seq<u8>> {
    let pre = bytes.subrange(0, end as int);
    if start <= end && is_char_boundary(bytes, end as int) && is_char_boundary(pre, start as int) {
        Some(pre.subrange(start as int, pre.len() as int))
    } else {
        None
    }
}

/// The text of a span of the source, when the span can be cut out and is
/// not blank.
pub open spec fn span_text(bytes: Seq<u8>, span: (usize, usize)) -> Option<Seq<char>> {
    match byte_slice(bytes, span.0, span.1) {
        Some(b) => if trim_spec(decode_utf8(b)).len() > 0 {
            Some(decode_utf8(b))
        } else {
            None
        },
        None => None,
    }
}

/// Conversions of the first `n` members, in order: each member with a
/// span whose non-blank text can be cut out.
pub open spec fn member_plans(ms: Seq<MemberSpec>, bytes: Seq<u8>, n: int) -> Seq<PlanView>
    decreases n,
{
    if n <= 0 {
        Seq::empty()
    } else {
        let prev = member_plans(ms, bytes, n - 1);
        let m = ms[n - 1];
        match m.span {
            Some(sp) => match span_text(bytes, sp) {
                Some(t) => prev.push((m.id, Some((n - 1) as usize), m.name@, t)),
                None => prev,
            },
            None => prev,
        }
    }
}

/// Entity of a group's header conversion when no member has one: the
/// header, else the first member id, else the first entity of the span map.
pub open spec fn header_entity(g: GroupSpec) -> Option<i64> {
    if g.header_id is Some {
        g.header_id
    } else if g.member_ids@.len() > 0 {
        Some(g.member_ids@[0])
    } else {
        g.first_span_entity
    }
}

/// The conversions of a group, none when the group is dropped: without
/// member conversions, the header is the group's own non-blank source
/// (dropped when there is no entity or no such source); with member
/// conversions, the header carries the group name as its text (dropped when
/// the name is blank).
pub open spec fn group_plan_spec(g: GroupSpec, source: Seq<char>) -> Option<(PlanView, Seq<PlanView>)> {
    let bytes = vstd::utf8::encode_utf8(source);
    let ms = member_plans(g.members@, bytes, g.members@.len() as int);
    if ms.len() == 0 {
        match header_entity(g) {
            None => None,
            Some(id) => match span_text(bytes, g.span) {
                Some(t) => Some(((id, None, g.name@, t), ms)),
                None => None,
            },
        }
    } else if trim_spec(g.name@).len() > 0 {
        Some(((if g.header_id is Some { g.header_id->0 } else { 0 }, None, g.name@, g.name@), ms))
    } else {
        None
    }
}

/// The span of a member that has one.
pub open spec fn member_span(m: MemberSpec) -> (usize, usize) {
    m.span->0
}

/// Member `k` can be converted: it has a span whose bytes can be cut out of
/// the source and whose text is not blank.
pub open spec fn member_convertible(ms: Seq<MemberSpec>, bytes: Seq<u8>, k: int) -> bool {
    &&& ms[k].span is Some
    &&& byte_slice(bytes, member_span(ms[k]).0, member_span(ms[k]).1) is Some
    &&& trim_spec(decode_utf8(byte_slice(bytes, member_span(ms[k]).0, member_span(ms[k]).1)->0)).len() > 0
}

/// The member conversions are those of the convertible members, in member
/// order, each with the member's id, position and name and the text of its
/// span, and none of them blank.
pub proof fn lemma_member_plans_law(ms: Seq<MemberSpec>, bytes: Seq<u8>, n: int)
    requires
        0 <= n <= ms.len(),
        n <= usize::MAX,
    ensures
        forall|j: int| 0 <= j < member_plans(ms, bytes, n).len() ==> {
            let p = #[trigger] member_plans(ms, bytes, n)[j];
            &&& p.1 is Some
            &&& 0 <= p.1->0 < n
            &&& member_convertible(ms, bytes, p.1->0 as int)
            &&& p.0 == ms[p.1->0 as int].id
            &&& p.2 == ms[p.1->0 as int].name@
            &&& p.3 == decode_utf8(byte_slice(bytes, member_span(ms[p.1->0 as int]).0, member_span(ms[p.1->0 as int]).1)->0)
            &&& trim_spec(p.3).len() > 0
        },
        forall|a: int, b: int| 0 <= a < b < member_plans(ms, bytes, n).len()
            ==> (#[trigger] member_plans(ms, bytes, n)[a]).1->0 < (#[trigger] member_plans(ms, bytes, n)[b]).1->0,
        forall|k: int| 0 <= k < n && #[trigger] member_convertible(ms, bytes, k)
            ==> exists|j: int| 0 <= j < member_plans(ms, bytes, n).len() && (#[trigger] member_plans(ms, bytes, n)[j]).1 == Some(k as usize),
    decreases n,
{
    if n > 0 {
        lemma_member_plans_law(ms, bytes, n - 1);
        let p = member_plans(ms, bytes, n - 1);
        let r = member_plans(ms, bytes, n);
        let k = n - 1;
        if member_convertible(ms, bytes, k) {
            assert(r == p.push((ms[k].id, Some(k as usize), ms[k].name@, decode_utf8(byte_slice(bytes, member_span(ms[k]).0, member_span(ms[k]).1)->0))));
        } else {
            assert(r == p);
        }
        assert forall|j: int| 0 <= j < r.len() implies {
            let q = #[trigger] r[j];
            &&& q.1 is Some
            &&& 0 <= q.1->0 < n
            &&& member_convertible(ms, bytes, q.1->0 as int)
            &&& q.0 == ms[q.1->0 as int].id
            &&& q.2 == ms[q.1->0 as int].name@
            &&& q.3 == decode_utf8(byte_slice(bytes, member_span(ms[q.1->0 as int]).0, member_span(ms[q.1->0 as int]).1)->0)
            &&& trim_spec(q.3).len() > 0
        } by {
            if j < p.len() {
                assert(r[j] == p[j]);
            }
        }
        assert forall|a: int, b: int| 0 <= a < b < r.len() implies (#[trigger] r[a]).1->0 < (#[trigger] r[b]).1->0 by {
            assert(r[a] == p[a]);
            if b < p.len() {
                assert(r[b] == p[b]);
            }
        }
        assert forall|t: int| 0 <= t < n && #[trigger] member_convertible(ms, bytes, t)
            implies exists|j: int| 0 <= j < r.len() && (#[trigger] r[j]).1 == Some(t as usize) by {
            if t < n - 1 {
                let j = choose|j: int| 0 <= j < p.len() && (#[trigger] p[j]).1 == Some(t as usize);
                assert(r[j] == p[j]);
            } else {
                assert(r[p.len() as int].1 == Some(t as usize));
            }
        }
    }
}

/// Cuts bytes `start..end` out of `src`.
fn slice_of<'a>(src: &'a str, start: usize, end: usize) -> (res: Option<&'a str>)
    ensures
        match res {
            Some(t) => byte_slice(src.spec_bytes(), start, end) == Some(t.spec_bytes()),
            None => byte_slice(src.spec_bytes(), start, end) is None,
        },
{
    if start <= end && src.is_char_boundary(end) {
        let (pre, _) = src.split_at(end);
        if pre.is_char_boundary(start) {
            let (_, t) = pre.split_at(start);
            return Some(t);
        }
    }
    None
}

/// Whether a text is blank.
fn is_blank(t: &str) -> (res: bool)
    ensures
        res == (trim_spec(t@).len() == 0),
{
    let c = chars_of(t);
    let tt = trim_chars(c.as_slice(), 0, c.len());
    proof {
        assert(c@.subrange(0, c.len() as int) =~= c@);
    }
    tt.len() == 0
}

/// The text of a span of `src`, when it can be cut out and is not blank.
fn span_text_of(src: &str, span: (usize, usize)) -> (res: Option<String>)
    ensures
        match res {
            Some(t) => span_text(src.spec_bytes(), span) == Some(t@),
            None => span_text(src.spec_bytes(), span) is None,
        },
{
    match slice_of(src, span.0, span.1) {
        None => None,
        Some(t) => {
            proof {
                assert(decode_utf8(t.spec_bytes()) == t@);
            }
            if is_blank(t) {
                None
            } else {
                Some(String::from_str(t))
            }
        },
    }
}

/// The conversions of one group, none when it is dropped.
pub fn group_conversion_plan(g: &GroupSpec, file_source: &str) -> (res: Option<GroupPlan>)
    ensures
        group_plan_view(res) == group_plan_spec(*g, file_source@),
{
    let ghost bytes = file_source.spec_bytes();
    let mut members: Vec<ConversionPlan> = Vec::new();
    for k in 0..g.members.len()
        invariant
            bytes == file_source.spec_bytes(),
            plan_views(members@) == member_plans(g.members@, bytes, k as int),
    {
        let m = &g.members[k];
        let ghost before = members@;
        match m.span {
            Some(sp) => match span_text_of(file_source, sp) {
                Some(t) => {
                    members.push(ConversionPlan {
                        entity_id: m.id,
                        member: Some(k),
                        name: String::from_str(m.name.as_str()),
                        source: t,
                    });
                    proof {
                        assert(plan_views(members@) =~= plan_views(before).push(plan_view(members@.last())));
                    }
                },
                None => {},
            },
            None => {},
        }
    }
    if members.len() == 0 {
        let entity = match g.header_id {
            Some(h) => Some(h),
            None => if g.member_ids.len() > 0 {
                Some(g.member_ids[0])
            } else {
                g.first_span_entity
            },
        };
        match entity {
            None => None,
            Some(id) => match span_text_of(file_source, g.span) {
                Some(t) => {
                    let header = ConversionPlan { entity_id: id, member: None, name: String::from_str(g.name.as_str()), source: t };
                    Some(GroupPlan { header, members })
                },
                None => None,
            },
        }
    } else if is_blank(g.name.as_str()) {
        None
    } else {
        let id = match g.header_id {
            Some(h) => h,
            None => 0,
        };
        let header = ConversionPlan {
            entity_id: id,
            member: None,
            name: String::from_str(g.name.as_str()),
            source: String::from_str(g.name.as_str()),
        };
        Some(GroupPlan { header, members })
    }
}

/// The conversions of every group, in order (`None` for dropped groups).
pub fn group_conversion_plans(groups: &[GroupSpec], file_source: &str) -> (res: Vec<Option<GroupPlan>>)
    ensures
        res@.len() == groups@.len(),
        forall|i: int| 0 <= i < groups@.len() ==> group_plan_view(#[trigger] res@[i]) == group_plan_spec(groups@[i], file_source@),
{
    let mut res: Vec<Option<GroupPlan>> = Vec::new();
    for i in 0..groups.len()
        invariant
            res@.len() == i,
            forall|j: int| 0 <= j < i ==> group_plan_view(#[trigger] res@[j]) == group_plan_spec(groups@[j], file_source@),
    {
        res.push(group_conversion_plan(&groups[i], file_source));
    }
    res
}

} // verus!
