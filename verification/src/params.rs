//! The parameters of a request: the members of a JSON object, as far as any
//! request looks into them.

use crate::text::{copy, opt_text, same, text_or, texts};
use vstd::prelude::*;

verus! {

/// The value of one parameter.
#[derive(Debug)]
pub enum Member {
    /// A string.
    Text(String),
    /// A whole number that is not negative and fits in 64 bits.
    Count(u64),
    /// A truth value.
    Flag(bool),
    /// An array: the strings in it, with `None` where something else stands.
    List(Vec<Option<String>>),
    /// Anything else.
    Other,
}

/// The value of one parameter.
pub enum MemberView {
    Text(Seq<char>),
    Count(u64),
    Flag(bool),
    List(Seq<Option<Seq<char>>>),
    Other,
}

impl View for Member {
    type V = MemberView;

    open spec fn view(&self) -> MemberView {
        match *self {
            Member::Text(s) => MemberView::Text(s@),
            Member::Count(n) => MemberView::Count(n),
            Member::Flag(b) => MemberView::Flag(b),
            Member::List(l) => MemberView::List(l@.map_values(|o: Option<String>| opt_text(o))),
            Member::Other => MemberView::Other,
        }
    }
}

/// Names with their values.
pub type Members = Seq<(Seq<char>, MemberView)>;

/// What a list of named values stands for.
pub open spec fn members_view(v: Seq<(String, Member)>) -> Members {
    v.map_values(|m: (String, Member)| (m.0@, m.1@))
}

/// The members of the JSON object that a text spells, by their names; `None`
/// where the text spells no JSON object.
pub uninterp spec fn json_members(text: Seq<char>) -> Option<Members>;

/// `serde_json::from_str` and the accessors of `serde_json::Value` read the
/// members of the object that `text` spells. Claimed of them is that the
/// outcome hangs on the text alone: it is called `json_members`.
#[verifier::external_body]
fn read_members(text: &str) -> (r: Option<Vec<(String, Member)>>)
    ensures
        match r {
            Some(v) => json_members(text@) == Some(members_view(v@)),
            None => json_members(text@) is None,
        },
{
    let value: serde_json::Value = serde_json::from_str(text).ok()?;
    let convert = |v: &serde_json::Value| match v {
        serde_json::Value::String(s) => Member::Text(s.clone()),
        serde_json::Value::Bool(b) => Member::Flag(*b),
        serde_json::Value::Number(n) => n.as_u64().map_or(Member::Other, Member::Count),
        serde_json::Value::Array(a) => {
            Member::List(a.iter().map(|e| e.as_str().map(String::from)).collect())
        },
        _ => Member::Other,
    };
    Some(value.as_object()?.iter().map(|(k, v)| (k.clone(), convert(v))).collect())
}

/// The value under a name: the first one, where the name occurs.
pub open spec fn member(p: Members, name: Seq<char>) -> Option<MemberView>
    decreases p.len(),
{
    if p.len() == 0 {
        None
    } else if p[0].0 == name {
        Some(p[0].1)
    } else {
        member(p.skip(1), name)
    }
}

/// The string under a name.
pub open spec fn text_of(p: Members, name: Seq<char>) -> Option<Seq<char>> {
    match member(p, name) {
        Some(MemberView::Text(s)) => Some(s),
        _ => None,
    }
}

/// The number under a name.
pub open spec fn count_of(p: Members, name: Seq<char>) -> Option<u64> {
    match member(p, name) {
        Some(MemberView::Count(n)) => Some(n),
        _ => None,
    }
}

/// The truth value under a name.
pub open spec fn flag_of(p: Members, name: Seq<char>) -> Option<bool> {
    match member(p, name) {
        Some(MemberView::Flag(b)) => Some(b),
        _ => None,
    }
}

/// The strings of a list, without what is no string.
pub open spec fn strings(l: Seq<Option<Seq<char>>>) -> Seq<Seq<char>>
    decreases l.len(),
{
    if l.len() == 0 {
        Seq::empty()
    } else {
        match l.last() {
            Some(s) => strings(l.drop_last()).push(s),
            None => strings(l.drop_last()),
        }
    }
}

/// The strings of the array under a name, without what is no string.
pub open spec fn strings_of(p: Members, name: Seq<char>) -> Option<Seq<Seq<char>>> {
    match member(p, name) {
        Some(MemberView::List(l)) => Some(strings(l)),
        _ => None,
    }
}

/// The array under a name, if it holds strings only.
pub open spec fn all_strings_of(p: Members, name: Seq<char>) -> Option<Seq<Seq<char>>> {
    match member(p, name) {
        Some(MemberView::List(l)) => if forall|i: int| 0 <= i < l.len() ==> (#[trigger] l[i]) is Some {
            Some(l.map_values(|o: Option<Seq<char>>| o->0))
        } else {
            None
        },
        _ => None,
    }
}

/// The parameters of a request.
#[derive(Debug)]
pub struct Params {
    pub members: Vec<(String, Member)>,
}

impl View for Params {
    type V = Members;

    open spec fn view(&self) -> Members {
        members_view(self.members@)
    }
}

/// The parameters that a text spells: none where it spells no JSON object.
pub open spec fn spelled_params(text: Seq<char>) -> Members {
    match json_members(text) {
        Some(m) => m,
        None => Seq::empty(),
    }
}

impl Params {
    /// Reads parameters from JSON text.
    pub fn parse(text: &str) -> (r: Self)
        ensures
            r@ == spelled_params(text@),
    {
        match read_members(text) {
            Some(members) => Params { members },
            None => {
                let r = Params { members: Vec::new() };
                assert(r@ =~= Seq::empty());
                r
            },
        }
    }

    /// The value under a name.
    pub fn member(&self, name: &str) -> (r: Option<&Member>)
        ensures
            match r {
                Some(m) => member(self@, name@) == Some(m@),
                None => member(self@, name@) is None,
            },
    {
        let mut i: usize = 0;
        assert(self@.skip(0) =~= self@);
        while i < self.members.len()
            invariant
                i <= self.members@.len(),
                self@.len() == self.members@.len(),
                member(self@, name@) == member(self@.skip(i as int), name@),
            decreases self.members@.len() - i,
        {
            let ghost rest = self@.skip(i as int);
            assert(rest[0] == self@[i as int]);
            assert(rest.skip(1) =~= self@.skip(i + 1));
            if same(self.members[i].0.as_str(), name) {
                return Some(&self.members[i].1);
            }
            i = i + 1;
        }
        None
    }

    /// The string under a name.
    pub fn text(&self, name: &str) -> (r: Option<String>)
        ensures
            opt_text(r) == text_of(self@, name@),
    {
        match self.member(name) {
            Some(Member::Text(s)) => Some(copy(s.as_str())),
            _ => None,
        }
    }

    /// The string under a name, empty where there is none.
    pub fn text_or_empty(&self, name: &str) -> (r: String)
        ensures
            r@ == text_or(text_of(self@, name@), Seq::empty()),
    {
        match self.text(name) {
            Some(s) => s,
            None => String::new(),
        }
    }

    /// The number under a name.
    pub fn count(&self, name: &str) -> (r: Option<u64>)
        ensures
            r == count_of(self@, name@),
    {
        match self.member(name) {
            Some(Member::Count(n)) => Some(*n),
            _ => None,
        }
    }

    /// The truth value under a name.
    pub fn flag(&self, name: &str) -> (r: Option<bool>)
        ensures
            r == flag_of(self@, name@),
    {
        match self.member(name) {
            Some(Member::Flag(b)) => Some(*b),
            _ => None,
        }
    }

    /// The strings of the array under a name, without what is no string.
    pub fn strings(&self, name: &str) -> (r: Option<Vec<String>>)
        ensures
            match r {
                Some(v) => strings_of(self@, name@) == Some(texts(v@)),
                None => strings_of(self@, name@) is None,
            },
    {
        match self.member(name) {
            Some(Member::List(l)) => {
                let ghost lv = l@.map_values(|o: Option<String>| opt_text(o));
                let mut v: Vec<String> = Vec::new();
                let mut i: usize = 0;
                assert(lv.take(0) =~= Seq::empty());
                assert(texts(v@) =~= Seq::empty());
                while i < l.len()
                    invariant
                        i <= l@.len(),
                        lv == l@.map_values(|o: Option<String>| opt_text(o)),
                        texts(v@) == strings(lv.take(i as int)),
                    decreases l@.len() - i,
                {
                    let ghost before = texts(v@);
                    assert(lv.take(i + 1).drop_last() =~= lv.take(i as int));
                    assert(lv.take(i + 1).last() == opt_text(l@[i as int]));
                    match &l[i] {
                        Some(s) => {
                            v.push(copy(s.as_str()));
                            assert(texts(v@) =~= before.push(s@));
                        },
                        None => {},
                    }
                    i = i + 1;
                }
                assert(lv.take(l@.len() as int) =~= lv);
                Some(v)
            },
            _ => None,
        }
    }

    /// The array under a name, if it holds strings only.
    pub fn all_strings(&self, name: &str) -> (r: Option<Vec<String>>)
        ensures
            match r {
                Some(v) => all_strings_of(self@, name@) == Some(texts(v@)),
                None => all_strings_of(self@, name@) is None,
            },
    {
        match self.member(name) {
            Some(Member::List(l)) => {
                let ghost lv = l@.map_values(|o: Option<String>| opt_text(o));
                let mut v: Vec<String> = Vec::new();
                let mut i: usize = 0;
                while i < l.len()
                    invariant
                        i <= l@.len(),
                        lv == l@.map_values(|o: Option<String>| opt_text(o)),
                        member(self@, name@) == Some(MemberView::List(lv)),
                        v@.len() == i,
                        forall|j: int|
                            0 <= j < i ==> (#[trigger] lv[j]) is Some && lv[j]->0 == v@[j]@,
                    decreases l@.len() - i,
                {
                    assert(lv[i as int] == opt_text(l@[i as int]));
                    match &l[i] {
                        Some(s) => {
                            v.push(copy(s.as_str()));
                        },
                        None => {
                            return None;
                        },
                    }
                    i = i + 1;
                }
                assert(texts(v@) =~= lv.map_values(|o: Option<Seq<char>>| o->0));
                Some(v)
            },
            _ => None,
        }
    }
}

/// A name stands for the value that stands first under it, and for none where
/// it does not occur.
pub proof fn the_first_value_counts(p: Members, name: Seq<char>, i: int)
    requires
        0 <= i <= p.len(),
        forall|j: int| 0 <= j < i ==> (#[trigger] p[j]).0 != name,
        i < p.len() ==> p[i].0 == name,
    ensures
        member(p, name) == (if i < p.len() {
            Some(p[i].1)
        } else {
            None
        }),
    decreases p.len(),
{
    if p.len() > 0 && i > 0 {
        let rest = p.skip(1);
        assert forall|j: int| 0 <= j < i - 1 implies (#[trigger] rest[j]).0 != name by {
            assert(p[j + 1].0 != name);
        }
        assert(p[0].0 != name);
        the_first_value_counts(rest, name, i - 1);
    }
}

/// A value is read only as what it is: a text as a text, a number as a number, a
/// truth value as a truth value, and an array as an array.
pub proof fn values_are_read_as_what_they_are(
    p: Members,
    name: Seq<char>,
    s: Seq<char>,
    n: u64,
    b: bool,
)
    ensures
        text_of(p, name) == Some(s) <==> member(p, name) == Some(MemberView::Text(s)),
        count_of(p, name) == Some(n) <==> member(p, name) == Some(MemberView::Count(n)),
        flag_of(p, name) == Some(b) <==> member(p, name) == Some(MemberView::Flag(b)),
        strings_of(p, name) is Some <==> member(p, name) matches Some(MemberView::List(_)),
        all_strings_of(p, name) matches Some(v) ==> strings_of(p, name) == Some(v),
        all_strings_of(p, name) is Some <==> (member(p, name) matches Some(MemberView::List(l))
            && forall|i: int| 0 <= i < l.len() ==> (#[trigger] l[i]) is Some),
{
    if let Some(MemberView::List(l)) = member(p, name) {
        if forall|i: int| 0 <= i < l.len() ==> (#[trigger] l[i]) is Some {
            strings_of_strings(l);
        }
    }
}

/// Where every element is a string, they are all there.
proof fn strings_of_strings(l: Seq<Option<Seq<char>>>)
    requires
        forall|i: int| 0 <= i < l.len() ==> (#[trigger] l[i]) is Some,
    ensures
        strings(l) == l.map_values(|o: Option<Seq<char>>| o->0),
    decreases l.len(),
{
    if l.len() > 0 {
        assert forall|i: int| 0 <= i < l.drop_last().len() implies (
        #[trigger] l.drop_last()[i]) is Some by {
            assert(l[i] is Some);
        }
        strings_of_strings(l.drop_last());
        assert(l[l.len() - 1] is Some);
    }
    assert(strings(l) =~= l.map_values(|o: Option<Seq<char>>| o->0));
}

/// Of an array, exactly the strings are taken, in their order.
pub proof fn strings_are_kept_and_nothing_else(l: Seq<Option<Seq<char>>>)
    ensures
        crate::table::holds_those(
            l,
            |o: Option<Seq<char>>| o is Some,
            strings(l).map_values(|s: Seq<char>| Some(s)),
        ),
{
    let some = |o: Option<Seq<char>>| o is Some;
    crate::table::filter_holds_those(l, some, some);
    strings_by_filter(l);
}

proof fn strings_by_filter(l: Seq<Option<Seq<char>>>)
    ensures
        strings(l).map_values(|s: Seq<char>| Some(s)) == l.filter(
            |o: Option<Seq<char>>| o is Some,
        ),
    decreases l.len(),
{
    reveal(Seq::filter);
    let picked = l.filter(|o: Option<Seq<char>>| o is Some);
    if l.len() > 0 {
        strings_by_filter(l.drop_last());
    }
    assert(strings(l).map_values(|s: Seq<char>| Some(s)) =~= picked);
}

} // verus!
