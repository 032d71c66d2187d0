//! Turning rule matches on an event into detection findings.

use vstd::prelude::*;

use crate::event::{parse_json, parsed_json, uuid_text, uuid_text_of, Event};
use crate::json::{
    clone_entries, clone_json, lemma_lookup_same, lookup, member, object_get, opt_same, str_of,
    upsert, Json,
};

verus! {

broadcast use vstd::std_specs::vec::group_vec_axioms;

/// The OCSF `metadata.uid` of an event's payload.
pub open spec fn payload_uid<'a>(d: &'a Json) -> Option<&'a Json> {
    match member(d, "metadata"@) {
        Some(m) => member(m, "uid"@),
        None => None,
    }
}

/// What ties a finding to its source event: the payload's `metadata.uid` where it is a
/// string, else the source's own id.
pub open spec fn correlation_of(e: Event) -> Seq<char> {
    match str_of(payload_uid(&e.data)) {
        Some(s) => s,
        None => uuid_text_of(e.id),
    }
}

/// Whether metadata entry `key` is the boolean `true`.
pub open spec fn flag_true(meta: Seq<(String, Json)>, key: Seq<char>) -> bool {
    lookup(meta, key) matches Some(v) && *v == Json::Bool(true)
}

/// The raw log text to match against: an OCSF-normalized event's `data.raw_data`,
/// where it is a string.
pub open spec fn raw_text(e: Event) -> Option<Seq<char>> {
    if flag_true(e.metadata@, "ocsf"@) {
        str_of(member(&e.data, "raw_data"@))
    } else {
        None
    }
}

/// The correlation identifier of a finding made from `event`.
pub fn correlation_uid(event: &Event) -> (r: String)
    ensures
        r@ == correlation_of(*event),
{
    match event.data.get("metadata") {
        Some(m) => match m.get("uid") {
            Some(Json::Str(s)) => {
                return s.clone();
            },
            _ => {},
        },
        None => {},
    }
    uuid_text(event.id)
}

/// The logsource entry of an event's metadata, which narrows the rules that apply.
pub fn logsource_of(event: &Event) -> (r: Option<&Json>)
    ensures
        r == lookup(event.metadata@, "logsource"@),
{
    object_get(&event.metadata, "logsource")
}

/// The parsed raw log, where the event is OCSF-normalized and its `data.raw_data` is a
/// string holding JSON; rules are then matched against it instead of `data`.
pub fn raw_payload(event: &Event) -> (r: Option<Json>)
    ensures
        r == match raw_text(*event) {
            Some(t) => parsed_json(t),
            None => None,
        },
{
    match object_get(&event.metadata, "ocsf") {
        Some(Json::Bool(true)) => match event.data.get("raw_data") {
            Some(Json::Str(s)) => parse_json(s.as_str()),
            _ => None,
        },
        _ => None,
    }
}

/// The product that findings name as their source: exactly the two members
/// `vendor_name` and `product_name`, both `StrIEM`.
pub open spec fn is_striem_product(p: Json) -> bool {
    &&& p is Object
    &&& p->Object_0@.len() == 2
    &&& str_of(member(&p, "vendor_name"@)) == Some("StrIEM"@)
    &&& str_of(member(&p, "product_name"@)) == Some("StrIEM"@)
}

/// A rule descriptor that can be made into a finding: an object (or null), whose
/// `metadata`, if any, is an object or null.
pub open spec fn descriptor_ok(d: Json) -> bool {
    &&& (d is Null || d is Object)
    &&& match member(&d, "metadata"@) {
        None => true,
        Some(m) => *m is Null || *m is Object,
    }
}

/// Whether a rule descriptor can be made into a finding.
pub fn descriptor_fits(d: &Json) -> (r: bool)
    ensures
        r == descriptor_ok(*d),
{
    match d {
        Json::Null => true,
        Json::Object(_) => match d.get("metadata") {
            None => true,
            Some(Json::Null) | Some(Json::Object(_)) => true,
            Some(_) => false,
        },
        _ => false,
    }
}

/// The members of a descriptor's `metadata`.
pub open spec fn meta_members(d: Json) -> Seq<(String, Json)> {
    match member(&d, "metadata"@) {
        Some(Json::Object(ms)) => ms@,
        _ => seq![],
    }
}

/// `f` is the finding made from source event `e`, rule descriptor `d` and fresh id `id`.
pub open spec fn is_finding_of(f: Event, e: Event, d: Json, id: u128) -> bool {
    &&& f.id == id
    &&& f.data is Object
    &&& forall|k: Seq<char>| k != "metadata"@ ==> #[trigger] member(&f.data, k) == member(&d, k)
    &&& member(&f.data, "metadata"@) matches Some(m) && {
        &&& *m is Object
        &&& str_of(member(m, "uid"@)) == Some(uuid_text_of(e.id))
        &&& str_of(member(m, "correlation_uid"@)) == Some(correlation_of(e))
        &&& member(m, "product"@) matches Some(p) && is_striem_product(*p)
        &&& forall|k: Seq<char>|
            k != "uid"@ && k != "correlation_uid"@ && k != "product"@ ==> opt_same(
                #[trigger] member(m, k),
                lookup(meta_members(d), k),
            )
    }
    &&& flag_true(f.metadata@, "ocsf"@)
    &&& flag_true(f.metadata@, "striem"@)
    &&& forall|k: Seq<char>|
        k != "ocsf"@ && k != "striem"@ ==> opt_same(#[trigger] lookup(f.metadata@, k), lookup(e.metadata@, k))
}

fn striem_product() -> (r: Json)
    ensures
        is_striem_product(r),
{
    let mut p: Vec<(String, Json)> = Vec::new();
    p.push((String::from_str("vendor_name"), Json::Str(String::from_str("StrIEM"))));
    p.push((String::from_str("product_name"), Json::Str(String::from_str("StrIEM"))));
    proof {
        reveal_strlit("vendor_name");
        reveal_strlit("product_name");
        assert("vendor_name"@.len() == 11 && "product_name"@.len() == 12);
        assert(p@.drop_first().drop_first() =~= Seq::<(String, Json)>::empty());
        assert(p@.drop_first()[0] == p@[1]);
        assert(p@[0].0@ == "vendor_name"@ && p@[1].0@ == "product_name"@);
        assert(p@[0].0@ != "product_name"@);
        assert(lookup(p@, "vendor_name"@) == Some(&p@[0].1));
        assert(lookup(p@.drop_first(), "product_name"@) == Some(&p@[1].1));
        assert(lookup(p@, "product_name"@) == Some(&p@[1].1));
    }
    Json::Object(p)
}

/// Makes the OCSF detection finding for a rule that matched `event`: the rule's
/// descriptor with `metadata.uid` set to the event's id, `metadata.correlation_uid`
/// to its correlation identifier and `metadata.product` to StrIEM; the metadata is
/// the event's, with `ocsf` and `striem` set to `true`.
pub fn build_finding(event: &Event, descriptor: Json, id: u128) -> (r: Event)
    requires
        descriptor_ok(descriptor),
    ensures
        is_finding_of(r, *event, descriptor, id),
{
    let ghost d = descriptor;
    let mut entries: Vec<(String, Json)> = match descriptor {
        Json::Object(es) => es,
        _ => Vec::new(),
    };
    let ghost before = entries@;
    assert(forall|k: Seq<char>| member(&d, k) == lookup(before, k)) by {
        assert forall|k: Seq<char>| member(&d, k) == lookup(before, k) by {
            if d is Null {
                assert(lookup(before, k) is None);
            }
        }
    }
    let mut meta: Vec<(String, Json)> = match object_get(&entries, "metadata") {
        Some(Json::Object(ms)) => clone_entries(ms),
        _ => Vec::new(),
    };
    let ghost old_meta = meta@;
    proof {
        assert forall|k: Seq<char>| opt_same(lookup(old_meta, k), lookup(meta_members(d), k)) by {
            match member(&d, "metadata"@) {
                Some(Json::Object(ms)) => lemma_lookup_same(old_meta, ms@, k),
                _ => {},
            }
        }
    }
    let uid = uuid_text(event.id);
    let uid_j = Json::Str(uid);
    let ghost uid_jv = uid_j;
    upsert(&mut meta, String::from_str("uid"), uid_j);
    let ghost m1 = meta@;
    let corr = correlation_uid(event);
    let corr_j = Json::Str(corr);
    let ghost corr_jv = corr_j;
    upsert(&mut meta, String::from_str("correlation_uid"), corr_j);
    let ghost m2 = meta@;
    let product = striem_product();
    let ghost product_v = product;
    upsert(&mut meta, String::from_str("product"), product);
    let ghost meta_v = meta@;
    let ghost meta_json = Json::Object(meta);
    upsert(&mut entries, String::from_str("metadata"), Json::Object(meta));
    let mut metadata = clone_entries(&event.metadata);
    proof {
        assert forall|k: Seq<char>| opt_same(lookup(metadata@, k), lookup(event.metadata@, k)) by {
            lemma_lookup_same(metadata@, event.metadata@, k);
        }
    }
    upsert(&mut metadata, String::from_str("ocsf"), Json::Bool(true));
    upsert(&mut metadata, String::from_str("striem"), Json::Bool(true));
    let r = Event { id, data: Json::Object(entries), metadata };
    proof {
        reveal_strlit("uid");
        reveal_strlit("correlation_uid");
        reveal_strlit("product");
        assert(member(&r.data, "metadata"@) == Some(&meta_json));
        assert("uid"@.len() == 3 && "correlation_uid"@.len() == 15 && "product"@.len() == 7);
        assert(lookup(m1, "uid"@) == Some(&uid_jv));
        assert(lookup(m2, "uid"@) == Some(&uid_jv));
        assert(lookup(meta_v, "correlation_uid"@) == Some(&corr_jv));
        assert(str_of(member(&meta_json, "uid"@)) == Some(uuid_text_of(event.id)));
        assert(str_of(member(&meta_json, "correlation_uid"@)) == Some(correlation_of(*event)));
        assert(member(&meta_json, "product"@) == Some(&product_v));
        assert forall|k: Seq<char>|
            k != "uid"@ && k != "correlation_uid"@ && k != "product"@ implies opt_same(
                #[trigger] member(&meta_json, k),
                lookup(meta_members(d), k),
            ) by {
            assert(member(&meta_json, k) == lookup(old_meta, k));
        }
        assert forall|k: Seq<char>| k != "metadata"@ implies #[trigger] member(&r.data, k) == member(&d, k) by {
            assert(member(&r.data, k) == lookup(before, k));
        }
        assert(flag_true(r.metadata@, "ocsf"@));
        assert(flag_true(r.metadata@, "striem"@));
    }
    r
}

/// Every finding made from event `e` carries `e`'s id as `metadata.uid`, its
/// correlation identifier (the payload's `metadata.uid` if present, else `e`'s id)
/// as `metadata.correlation_uid`, and the `ocsf` and `striem` flags set to `true`.
pub proof fn lemma_finding_correlates(f: Event, e: Event, d: Json, id: u128)
    requires
        is_finding_of(f, e, d, id),
    ensures
        member(&f.data, "metadata"@) matches Some(m) && str_of(member(m, "uid"@)) == Some(uuid_text_of(e.id))
            && str_of(member(m, "correlation_uid"@)) == Some(
            match str_of(payload_uid(&e.data)) {
                Some(s) => s,
                None => uuid_text_of(e.id),
            },
        ),
        lookup(f.metadata@, "ocsf"@) == Some(&Json::Bool(true)),
        lookup(f.metadata@, "striem"@) == Some(&Json::Bool(true)),
{
}

/// The positions of the rules whose descriptors were resolved, among the first `n`.
pub open spec fn resolved_positions(rs: Seq<Option<Json>>, n: int) -> Seq<int>
    decreases n,
{
    if n <= 0 || n > rs.len() {
        seq![]
    } else if rs[n - 1] is Some {
        resolved_positions(rs, n - 1).push(n - 1)
    } else {
        resolved_positions(rs, n - 1)
    }
}

/// The findings for the rules that matched `event`, in match order. `resolved[i]` is
/// the descriptor of the `i`-th matched rule, or `None` where the rule is gone; those
/// are skipped. The finding for rule `i` gets the fresh id `ids[i]`.
pub fn findings(event: &Event, resolved: Vec<Option<Json>>, ids: &Vec<u128>) -> (r: Vec<Event>)
    requires
        resolved@.len() == ids@.len(),
        forall|i: int| 0 <= i < resolved@.len() ==> (#[trigger] resolved@[i] matches Some(d) ==> descriptor_ok(d)),
    ensures
        r@.len() == resolved_positions(resolved@, resolved@.len() as int).len(),
        forall|j: int|
            0 <= j < r@.len() ==> {
                let p = resolved_positions(resolved@, resolved@.len() as int)[j];
                is_finding_of(#[trigger] r@[j], *event, resolved@[p]->Some_0, ids@[p])
            },
{
    let ghost all = resolved@;
    let n = resolved.len();
    let mut rest = resolved;
    let mut out: Vec<Event> = Vec::new();
    let mut i: usize = 0;
    while i < n
        invariant
            n == all.len(),
            n == ids@.len(),
            i <= n,
            rest@ == all.subrange(i as int, n as int),
            forall|q: int| 0 <= q < all.len() ==> (#[trigger] all[q] matches Some(d) ==> descriptor_ok(d)),
            out@.len() == resolved_positions(all, i as int).len(),
            forall|j: int|
                0 <= j < out@.len() ==> {
                    let p = resolved_positions(all, i as int)[j];
                    is_finding_of(#[trigger] out@[j], *event, all[p]->Some_0, ids@[p])
                },
        decreases n - i,
    {
        assert(rest@[0] == all[i as int]);
        let r = rest.remove(0);
        assert(rest@ =~= all.subrange(i + 1, n as int));
        match r {
            Some(d) => {
                let f = build_finding(event, d, ids[i]);
                out.push(f);
            },
            None => {},
        }
        i = i + 1;
    }
    out
}

} // verus!
