//! Routing events to the writer of their class, and the writer's finalization rules.

use vstd::prelude::*;

use crate::event::{lemma_uuid_text_ordered, text_before, uuid_text, uuid_text_of};
use crate::json::{member, Json, Num};
use crate::ocsf::{category, category_name, category_name_of, category_of, class_from_name, class_named};
use crate::schema::ClassSchema;

verus! {

/// Where the events of one class go: `<base>/<category>/<class>/`, written with `schema`.
#[derive(Debug)]
pub struct Route {
    pub class_uid: u32,
    pub category: String,
    pub class: String,
    pub schema: ClassSchema,
}

/// Why a schema could not be given a route at startup.
#[derive(Clone, Copy, Debug, PartialEq, Eq, Structural)]
pub enum InitError {
    /// The schema's name is no known class.
    UnknownClass,
    /// The class's category is unknown.
    UnknownCategory,
}

/// An event that no route takes.
#[derive(Clone, Copy, Debug, PartialEq, Eq, Structural)]
pub struct RoutingFailed;

/// The route for the schema of class `class_name`.
pub fn route_for(class_name: &str, schema: ClassSchema) -> (r: Result<Route, InitError>)
    ensures
        match class_named(class_name@) {
            None => r == Err::<Route, InitError>(InitError::UnknownClass),
            Some(u) => match category_name_of(category_of(u)) {
                None => r == Err::<Route, InitError>(InitError::UnknownCategory),
                Some(c) => r matches Ok(route) && route.class_uid == u && route.category@ == c
                    && route.class@ == class_name@ && route.schema == schema,
            },
        },
{
    let uid = match class_from_name(class_name) {
        Some(u) => u,
        None => {
            return Err(InitError::UnknownClass);
        },
    };
    let cat = match category_name(category(uid)) {
        Some(c) => c,
        None => {
            return Err(InitError::UnknownCategory);
        },
    };
    Ok(Route {
        class_uid: uid,
        category: String::from_str(cat),
        class: String::from_str(class_name),
        schema,
    })
}

/// The non-negative integer that a number denotes, where it fits in `u64`.
pub open spec fn number_as_u64(n: Num) -> Option<u64> {
    match n {
        Num::Int(i) => if i >= 0 {
            Some(i as u64)
        } else {
            None
        },
        Num::UInt(u) => Some(u),
        Num::Float(_) => None,
    }
}

/// The class of an event payload: its `class_uid` member, where that is an integer
/// that fits in `u32`.
pub open spec fn event_class(d: &Json) -> Option<u32> {
    match member(d, "class_uid"@) {
        Some(Json::Num(n)) => match number_as_u64(*n) {
            Some(u) => if u <= u32::MAX as u64 {
                Some(u as u32)
            } else {
                None
            },
            None => None,
        },
        _ => None,
    }
}

/// The class of an event payload.
pub fn class_of(d: &Json) -> (r: Option<u32>)
    ensures
        r == event_class(d),
{
    let u: u64 = match d.get("class_uid") {
        Some(Json::Num(Num::Int(i))) => if *i >= 0 {
            *i as u64
        } else {
            return None;
        },
        Some(Json::Num(Num::UInt(u))) => *u,
        _ => {
            return None;
        },
    };
    if u <= u32::MAX as u64 {
        Some(u as u32)
    } else {
        None
    }
}

/// The routes of all classes that have a schema; no class has two.
#[derive(Debug)]
pub struct Routes {
    pub routes: Vec<Route>,
}

impl Routes {
    /// No two routes are for the same class.
    pub open spec fn wf(&self) -> bool {
        forall|i: int, j: int|
            0 <= i < j < self.routes@.len() ==> (#[trigger] self.routes@[i]).class_uid != (#[trigger] self.routes@[j]).class_uid
    }

    /// Whether some route is for class `c`.
    pub open spec fn has_class(&self, c: u32) -> bool {
        exists|i: int| 0 <= i < self.routes@.len() && (#[trigger] self.routes@[i]).class_uid == c
    }

    pub fn new() -> (r: Routes)
        ensures
            r.wf(),
            r.routes@.len() == 0,
    {
        Routes { routes: Vec::new() }
    }

    /// Adds a route; one for the same class is replaced.
    pub fn add(&mut self, route: Route)
        requires
            old(self).wf(),
        ensures
            final(self).wf(),
            final(self).has_class(route.class_uid),
            forall|c: u32| c != route.class_uid ==> (final(self).has_class(c) <==> old(self).has_class(c)),
            final(self).routes@.contains(route),
            forall|r: Route| #[trigger] old(self).routes@.contains(r) && r.class_uid != route.class_uid ==> final(self).routes@.contains(r),
    {
        let ghost c = route.class_uid;
        let mut i: usize = 0;
        while i < self.routes.len()
            invariant
                c == route.class_uid,
                self.wf(),
                *self == *old(self),
                i <= self.routes@.len(),
                forall|j: int| 0 <= j < i ==> (#[trigger] self.routes@[j]).class_uid != route.class_uid,
            decreases self.routes@.len() - i,
        {
            if self.routes[i].class_uid == route.class_uid {
                let ghost before = self.routes@;
                self.routes.set(i, route);
                proof {
                    assert(self.routes@ == before.update(i as int, self.routes@[i as int]));
                    assert forall|c2: u32| c2 != c implies (self.has_class(c2) <==> old(self).has_class(c2)) by {
                        if self.has_class(c2) {
                            let k = choose|k: int| 0 <= k < self.routes@.len() && (#[trigger] self.routes@[k]).class_uid == c2;
                            assert(before[k].class_uid == c2);
                        }
                        if old(self).has_class(c2) {
                            let k = choose|k: int| 0 <= k < before.len() && (#[trigger] before[k]).class_uid == c2;
                            assert(self.routes@[k].class_uid == c2);
                        }
                    }
                    assert(self.routes@[i as int].class_uid == c);
                    assert forall|r: Route| #[trigger] before.contains(r) && r.class_uid != c implies self.routes@.contains(r) by {
                        let k = choose|k: int| 0 <= k < before.len() && before[k] == r;
                        assert(self.routes@[k] == r);
                    }
                }
                return;
            }
            i = i + 1;
        }
        let ghost before = self.routes@;
        self.routes.push(route);
        proof {
            assert(self.routes@[before.len() as int].class_uid == c);
            assert forall|r: Route| #[trigger] before.contains(r) && r.class_uid != c implies self.routes@.contains(r) by {
                let k = choose|k: int| 0 <= k < before.len() && before[k] == r;
                assert(self.routes@[k] == r);
            }
            assert forall|c2: u32| c2 != c implies (self.has_class(c2) <==> old(self).has_class(c2)) by {
                if self.has_class(c2) {
                    let k = choose|k: int| 0 <= k < self.routes@.len() && (#[trigger] self.routes@[k]).class_uid == c2;
                    assert(before[k].class_uid == c2);
                }
                if old(self).has_class(c2) {
                    let k = choose|k: int| 0 <= k < before.len() && (#[trigger] before[k]).class_uid == c2;
                    assert(self.routes@[k].class_uid == c2);
                }
            }
        }
    }

    /// The route that takes an event payload: the one for its `class_uid`. Payloads
    /// without a class, or of a class without a schema, fail to route.
    pub fn route(&self, data: &Json) -> (r: Result<usize, RoutingFailed>)
        ensures
            match r {
                Ok(i) => i < self.routes@.len() && event_class(data) == Some(self.routes@[i as int].class_uid),
                Err(_) => match event_class(data) {
                    None => true,
                    Some(c) => !self.has_class(c),
                },
            },
    {
        let c = match class_of(data) {
            Some(c) => c,
            None => {
                return Err(RoutingFailed);
            },
        };
        let mut i: usize = 0;
        while i < self.routes.len()
            invariant
                event_class(data) == Some(c),
                i <= self.routes@.len(),
                forall|j: int| 0 <= j < i ==> (#[trigger] self.routes@[j]).class_uid != c,
            decreases self.routes@.len() - i,
        {
            if self.routes[i].class_uid == c {
                return Ok(i);
            }
            i = i + 1;
        }
        Err(RoutingFailed)
    }
}

/// What becomes of a closed file.
#[derive(Clone, Copy, Debug, PartialEq, Eq, Structural)]
pub enum Finish {
    /// Nothing was written: the temporary file is dropped.
    Discard,
    /// The file is moved into the class directory.
    Publish,
}

/// Decides, from the row counts of a closed file's row groups, whether it is
/// published: only a file whose first row group holds rows is.
pub fn finish_action(row_group_rows: &Vec<i64>) -> (r: Finish)
    ensures
        (r == Finish::Publish) == (row_group_rows@.len() > 0 && row_group_rows@[0] != 0),
{
    if row_group_rows.len() > 0 && row_group_rows[0] != 0 {
        Finish::Publish
    } else {
        Finish::Discard
    }
}

/// The name of a published file: its time-ordered UUID and the columnar extension.
pub fn file_name(id: u128) -> (r: String)
    ensures
        r@ == uuid_text_of(id) + ".parquet"@,
{
    let mut s = uuid_text(id);
    s.append(".parquet");
    s
}

/// Published files sort by name in the order of their ids: with time-ordered ids,
/// in the order in which they were made.
pub proof fn lemma_file_names_sort(a: u128, b: u128)
    requires
        a < b,
    ensures
        text_before(uuid_text_of(a) + ".parquet"@, uuid_text_of(b) + ".parquet"@),
{
    lemma_uuid_text_ordered(a, b);
    let sa = uuid_text_of(a);
    let sb = uuid_text_of(b);
    let k = choose|k: int|
        0 <= k < sa.len() && k < sb.len() && (forall|j: int| 0 <= j < k ==> sa[j] == sb[j]) && (#[trigger] sa[k] as u32)
            < (sb[k] as u32);
    let ta = sa + ".parquet"@;
    let tb = sb + ".parquet"@;
    assert(ta[k] == sa[k] && tb[k] == sb[k]);
    assert(forall|j: int| 0 <= j < k ==> ta[j] == sa[j] && tb[j] == sb[j]);
    assert(0 <= k < ta.len() && k < tb.len() && (forall|j: int| 0 <= j < k ==> ta[j] == tb[j]) && (ta[k] as u32) < (tb[k] as u32));
}

} // verus!
