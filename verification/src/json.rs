//! The JSON values that the web interface sends, and how they are read.
use crate::text::same_text;
use vstd::prelude::*;

verus! {

/// A number.
#[derive(Debug)]
pub enum JsonNumber {
    /// A whole number that is not negative.
    PosInt(u64),
    /// A negative whole number.
    NegInt(i64),
    /// Any other number, as it is written.
    Float(String),
}

/// A JSON value.
#[derive(Debug)]
pub enum Json {
    Null,
    Bool(bool),
    Number(JsonNumber),
    Text(String),
    Array(Vec<Json>),
    /// The members of an object, under different names.
    Object(Vec<(String, Json)>),
}

/// The index of the member that goes by the name `key`, or the length if there is none.
pub open spec fn member_index(members: Seq<(String, Json)>, key: Seq<char>) -> int
    decreases members.len(),
{
    if members.len() == 0 || members[0].0@ == key {
        0
    } else {
        1 + member_index(members.drop_first(), key)
    }
}

/// `member_index` is the one index in front of which no member goes by the name, and at which one
/// does unless the members end there.
proof fn lemma_member_index(members: Seq<(String, Json)>, key: Seq<char>, p: int)
    requires
        0 <= p <= members.len(),
        forall|i: int| 0 <= i < p ==> (#[trigger] members[i]).0@ != key,
        p == members.len() || members[p].0@ == key,
    ensures
        member_index(members, key) == p,
    decreases members.len(),
{
    if p > 0 {
        assert(members[0].0@ != key);
        let rest = members.drop_first();
        assert forall|i: int| 0 <= i < p - 1 implies (#[trigger] rest[i]).0@ != key by {
            assert(rest[i] == members[i + 1]);
        }
        lemma_member_index(rest, key, p - 1);
    }
}

impl Json {
    /// The member of an object that goes by the name `key`.
    pub open spec fn member(self, key: Seq<char>) -> Option<Json> {
        match self {
            Json::Object(members) => if 0 <= member_index(members@, key) < members@.len() {
                Some(members@[member_index(members@, key)].1)
            } else {
                None
            },
            _ => None,
        }
    }

    /// The text, if the value is one.
    pub open spec fn text(self) -> Option<Seq<char>> {
        match self {
            Json::Text(text) => Some(text@),
            _ => None,
        }
    }

    /// The truth value, if the value is one.
    pub open spec fn flag(self) -> Option<bool> {
        match self {
            Json::Bool(flag) => Some(flag),
            _ => None,
        }
    }

    /// The whole number, if the value is one that is not negative.
    pub open spec fn unsigned(self) -> Option<u64> {
        match self {
            Json::Number(JsonNumber::PosInt(n)) => Some(n),
            _ => None,
        }
    }

    /// The whole number, if the value is one of 64 bits with a sign.
    pub open spec fn signed(self) -> Option<i64> {
        match self {
            Json::Number(JsonNumber::PosInt(n)) => if n <= i64::MAX {
                Some(n as i64)
            } else {
                None
            },
            Json::Number(JsonNumber::NegInt(n)) => Some(n),
            _ => None,
        }
    }

    /// The member of an object that goes by the name `key`.
    pub fn get(&self, key: &str) -> (member: Option<&Json>)
        ensures
            match member {
                Some(value) => self.member(key@) == Some(*value),
                None => self.member(key@) is None,
            },
    {
        match self {
            Json::Object(members) => {
                let mut i: usize = 0;
                while i < members.len()
                    invariant
                        i <= members.len(),
                        *self == Json::Object(*members),
                        forall|k: int| 0 <= k < i ==> (#[trigger] members@[k]).0@ != key@,
                    decreases members.len() - i,
                {
                    if same_text(members[i].0.as_str(), key) {
                        proof {
                            lemma_member_index(members@, key@, i as int);
                        }
                        return Some(&members[i].1);
                    }
                    i += 1;
                }
                proof {
                    lemma_member_index(members@, key@, i as int);
                }
                None
            },
            _ => None,
        }
    }

    /// The text, if the value is one.
    pub fn as_str(&self) -> (text: Option<&str>)
        ensures
            match text {
                Some(t) => self.text() == Some(t@),
                None => self.text() is None,
            },
    {
        match self {
            Json::Text(text) => Some(text.as_str()),
            _ => None,
        }
    }

    /// The truth value, if the value is one.
    pub fn as_bool(&self) -> (flag: Option<bool>)
        ensures
            flag == self.flag(),
    {
        match self {
            Json::Bool(flag) => Some(*flag),
            _ => None,
        }
    }

    /// The whole number, if the value is one that is not negative.
    pub fn as_u64(&self) -> (n: Option<u64>)
        ensures
            n == self.unsigned(),
    {
        match self {
            Json::Number(JsonNumber::PosInt(n)) => Some(*n),
            _ => None,
        }
    }

    /// The whole number, if the value is one of 64 bits with a sign.
    pub fn as_i64(&self) -> (n: Option<i64>)
        ensures
            n == self.signed(),
    {
        match self {
            Json::Number(JsonNumber::PosInt(n)) => if *n <= 9223372036854775807 {
                Some(*n as i64)
            } else {
                None
            },
            Json::Number(JsonNumber::NegInt(n)) => Some(*n),
            _ => None,
        }
    }
}

/// The text of the member `key`, if there is one and it is a text.
pub open spec fn member_text(value: Json, key: Seq<char>) -> Option<Seq<char>> {
    match value.member(key) {
        Some(member) => member.text(),
        None => None,
    }
}

/// The text of the member `key`, if there is one and it is a text.
pub fn text_member<'a>(value: &'a Json, key: &str) -> (text: Option<&'a str>)
    ensures
        match text {
            Some(t) => member_text(*value, key@) == Some(t@),
            None => member_text(*value, key@) is None,
        },
{
    match value.get(key) {
        Some(member) => member.as_str(),
        None => None,
    }
}

/// The whole number of the member `key`, if there is one and it is such a number.
pub open spec fn member_signed(value: Json, key: Seq<char>) -> Option<i64> {
    match value.member(key) {
        Some(member) => member.signed(),
        None => None,
    }
}

/// The whole number of the member `key`, if there is one and it is such a number.
pub fn signed_member(value: &Json, key: &str) -> (n: Option<i64>)
    ensures
        n == member_signed(*value, key@),
{
    match value.get(key) {
        Some(member) => member.as_i64(),
        None => None,
    }
}

/// A value is read as what it holds and as nothing else: a text as a text, a truth value as a truth
/// value, a whole number as itself where it fits.
pub proof fn law_values_are_what_they_hold(value: Json)
    ensures
        match value {
            Json::Text(text) => {
                &&& value.text() == Some(text@)
                &&& value.flag() is None && value.unsigned() is None && value.signed() is None
            },
            Json::Bool(flag) => {
                &&& value.flag() == Some(flag)
                &&& value.text() is None && value.unsigned() is None && value.signed() is None
            },
            Json::Number(JsonNumber::PosInt(n)) => {
                &&& value.unsigned() == Some(n)
                &&& n <= 0x7FFF_FFFF_FFFF_FFFF ==> value.signed() is Some && value.signed()->0 == n
                &&& n > 0x7FFF_FFFF_FFFF_FFFF ==> value.signed() is None
                &&& value.text() is None && value.flag() is None
            },
            Json::Number(JsonNumber::NegInt(n)) => {
                &&& value.signed() == Some(n)
                &&& value.unsigned() is None && value.text() is None && value.flag() is None
            },
            _ => value.text() is None && value.flag() is None && value.unsigned() is None
                && value.signed() is None,
        },
{
}

/// The member of an object under a name is the first that goes by it; there is none where no member
/// does, and values other than objects have none.
pub proof fn law_member_is_found_by_name(value: Json, key: Seq<char>)
    ensures
        match value {
            Json::Object(members) => match value.member(key) {
                Some(found) => exists|i: int|
                    0 <= i < members@.len() && (#[trigger] members@[i]).0@ == key && members@[i].1
                        == found && forall|j: int|
                        0 <= j < i ==> (#[trigger] members@[j]).0@ != key,
                None => forall|i: int| 0 <= i < members@.len() ==> (#[trigger] members@[i]).0@ != key,
            },
            _ => value.member(key) is None,
        },
        match value.member(key) {
            Some(found) => member_text(value, key) == found.text() && member_signed(value, key)
                == found.signed(),
            None => member_text(value, key) is None && member_signed(value, key) is None,
        },
{
    if let Json::Object(members) = value {
        lemma_member_index_found(members@, key);
        let i = member_index(members@, key);
        if i < members@.len() {
            assert(members@[i].0@ == key);
        }
    }
}

/// `member_index` is the first index at which a member goes by the name.
proof fn lemma_member_index_found(members: Seq<(String, Json)>, key: Seq<char>)
    ensures
        0 <= member_index(members, key) <= members.len(),
        member_index(members, key) < members.len() ==> members[member_index(members, key)].0@
            == key,
        forall|i: int| 0 <= i < member_index(members, key) ==> (#[trigger] members[i]).0@ != key,
    decreases members.len(),
{
    if members.len() > 0 && members[0].0@ != key {
        let rest = members.drop_first();
        lemma_member_index_found(rest, key);
        assert forall|i: int| 0 <= i < member_index(members, key) implies (#[trigger] members[i]).0@
            != key by {
            if i > 0 {
                assert(rest[i - 1] == members[i]);
            }
        }
    }
}

} // verus!
