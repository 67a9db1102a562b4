use vstd::prelude::*;

verus! {

/// A value held by one member of a record structure.
pub enum RecValue {
    Str(String),
    Ident(String),
    Bool(bool),
    Int(i64),
    Array(Vec<RecValue>),
}

/// Error raised when a record structure cannot be read into a typed record.
pub enum RecError {
    MissingField(String),
    InvalidValue(String),
}

/// The members of a record, as a map from member name to value, built from
/// the member list in order (a later member with the same name wins).
pub open spec fn members_map(s: Seq<(String, RecValue)>) -> Map<Seq<char>, RecValue>
    decreases s.len(),
{
    if s.len() == 0 {
        Map::empty()
    } else {
        members_map(s.drop_last()).insert(s.last().0@, s.last().1)
    }
}

/// No two members of the list share a name.
pub open spec fn names_distinct(s: Seq<(String, RecValue)>) -> bool {
    forall|i: int, j: int| 0 <= i < s.len() && 0 <= j < s.len() && i != j ==> s[i].0@ != s[j].0@
}

/// The text held by member `name` of `m`, when that member holds a string.
pub open spec fn str_member(m: Map<Seq<char>, RecValue>, name: Seq<char>) -> Option<Seq<char>> {
    if m.contains_key(name) && m[name] is Str {
        Some(m[name]->Str_0@)
    } else {
        None
    }
}

/// The identifier held by member `name` of `m`, when that member holds one.
pub open spec fn ident_member(m: Map<Seq<char>, RecValue>, name: Seq<char>) -> Option<Seq<char>> {
    if m.contains_key(name) && m[name] is Ident {
        Some(m[name]->Ident_0@)
    } else {
        None
    }
}

/// The texts of the string elements of an array, in order; elements of other
/// kinds are skipped.
pub open spec fn str_elements(a: Seq<RecValue>) -> Seq<Seq<char>>
    decreases a.len(),
{
    if a.len() == 0 {
        Seq::empty()
    } else if a.last() is Str {
        str_elements(a.drop_last()).push(a.last()->Str_0@)
    } else {
        str_elements(a.drop_last())
    }
}

/// A record type that can be read from and written to a record structure
/// and reset to its default.
pub trait Record: Sized {
    /// Whether the record holds its default content.
    spec fn is_default(&self) -> bool;

    fn from_rec(rec: &RecStruct) -> Result<Self, RecError>;

    fn to_rec(&self) -> RecStruct;

    fn SetToDefault(&mut self)
        ensures
            final(self).is_default(),
    ;

    fn IsSetToDefault(&self) -> (r: bool)
        ensures
            r == self.is_default(),
    ;
}

/// A record structure: named members in insertion order, names distinct.
pub struct RecStruct {
    members: Vec<(String, RecValue)>,
}

impl View for RecStruct {
    type V = Map<Seq<char>, RecValue>;

    closed spec fn view(&self) -> Map<Seq<char>, RecValue> {
        members_map(self.members@)
    }
}

proof fn lemma_members_absent(s: Seq<(String, RecValue)>, name: Seq<char>)
    requires
        forall|i: int| 0 <= i < s.len() ==> s[i].0@ != name,
    ensures
        !members_map(s).contains_key(name),
    decreases s.len(),
{
    if s.len() > 0 {
        lemma_members_absent(s.drop_last(), name);
    }
}

proof fn lemma_members_lookup(s: Seq<(String, RecValue)>, i: int)
    requires
        names_distinct(s),
        0 <= i < s.len(),
    ensures
        members_map(s).contains_key(s[i].0@),
        members_map(s)[s[i].0@] == s[i].1,
    decreases s.len(),
{
    if i < s.len() - 1 {
        lemma_members_lookup(s.drop_last(), i);
    }
}

proof fn lemma_members_update(s: Seq<(String, RecValue)>, i: int, name: String, value: RecValue)
    requires
        names_distinct(s),
        0 <= i < s.len(),
        s[i].0@ == name@,
    ensures
        members_map(s.update(i, (name, value))) == members_map(s).insert(name@, value),
        names_distinct(s.update(i, (name, value))),
    decreases s.len(),
{
    let t = s.update(i, (name, value));
    if i == s.len() - 1 {
        assert(t.drop_last() =~= s.drop_last());
        assert(!members_map(s.drop_last()).contains_key(name@)) by {
            lemma_members_absent(s.drop_last(), name@);
        }
        assert(members_map(t) =~= members_map(s).insert(name@, value));
    } else {
        lemma_members_update(s.drop_last(), i, name, value);
        assert(t.drop_last() =~= s.drop_last().update(i, (name, value)));
        assert(s.last().0@ != name@);
        assert(members_map(t) =~= members_map(s).insert(name@, value));
    }
}

impl RecStruct {
    #[verifier::type_invariant]
    spec fn inv(self) -> bool {
        names_distinct(self.members@)
    }

    /// An empty record structure.
    pub fn new() -> (r: RecStruct)
        ensures
            r@ == Map::<Seq<char>, RecValue>::empty(),
    {
        RecStruct { members: Vec::new() }
    }

    /// Index of the member called `name`, if there is one.
    fn position(&self, name: &str) -> (r: Option<usize>)
        ensures
            match r {
                Some(i) => i < self.members@.len() && self.members@[i as int].0@ == name@,
                None => forall|j: int|
                    0 <= j < self.members@.len() ==> self.members@[j].0@ != name@,
            },
    {
        let key = name.to_owned();
        let mut i: usize = 0;
        while i < self.members.len()
            invariant
                key@ == name@,
                0 <= i <= self.members@.len(),
                forall|j: int| 0 <= j < i ==> self.members@[j].0@ != name@,
            decreases self.members@.len() - i,
        {
            if self.members[i].0 == key {
                return Some(i);
            }
            i = i + 1;
        }
        None
    }

    /// The value of the member called `name`, if there is one.
    pub fn GetValue(&self, name: &str) -> (r: Option<&RecValue>)
        ensures
            r matches Some(v) ==> self@.contains_key(name@) && self@[name@] == *v,
            r is None ==> !self@.contains_key(name@),
    {
        proof {
            use_type_invariant(self);
        }
        match self.position(name) {
            Some(i) => {
                proof {
                    lemma_members_lookup(self.members@, i as int);
                }
                Some(&self.members[i].1)
            },
            None => {
                proof {
                    lemma_members_absent(self.members@, name@);
                }
                None
            },
        }
    }

    /// Give the member called `name` the value `value`, adding the member at
    /// the end when there is none of that name.
    pub fn SetValue(&mut self, name: &str, value: RecValue)
        ensures
            final(self)@ == old(self)@.insert(name@, value),
    {
        proof {
            use_type_invariant(&*self);
        }
        let key = name.to_owned();
        match self.position(name) {
            Some(i) => {
                proof {
                    lemma_members_update(self.members@, i as int, key, value);
                }
                let mut members = Vec::new();
                std::mem::swap(&mut members, &mut self.members);
                members.set(i, (key, value));
                self.members = members;
            },
            None => {
                let ghost s = self.members@;
                let mut members = Vec::new();
                std::mem::swap(&mut members, &mut self.members);
                members.push((key, value));
                proof {
                    assert(members@.drop_last() =~= s);
                    assert(names_distinct(members@));
                }
                self.members = members;
            },
        }
    }

    /// The text of member `name` when it holds a string.
    pub fn get_str(&self, name: &str) -> (r: Option<&str>)
        ensures
            match r {
                Some(s) => self@.contains_key(name@) && (self@[name@] matches RecValue::Str(t)
                    && t@ == s@),
                None => !(self@.contains_key(name@) && self@[name@] is Str),
            },
    {
        match self.GetValue(name) {
            Some(RecValue::Str(s)) => Some(s.as_str()),
            _ => None,
        }
    }

    /// The identifier of member `name` when it holds an identifier.
    pub fn get_ident(&self, name: &str) -> (r: Option<&str>)
        ensures
            match r {
                Some(s) => self@.contains_key(name@) && (self@[name@] matches RecValue::Ident(t)
                    && t@ == s@),
                None => !(self@.contains_key(name@) && self@[name@] is Ident),
            },
    {
        match self.GetValue(name) {
            Some(RecValue::Ident(s)) => Some(s.as_str()),
            _ => None,
        }
    }

    /// The flag of member `name` when it holds a boolean.
    pub fn get_bool(&self, name: &str) -> (r: Option<bool>)
        ensures
            match r {
                Some(b) => self@.contains_key(name@) && self@[name@] == RecValue::Bool(b),
                None => !(self@.contains_key(name@) && self@[name@] is Bool),
            },
    {
        match self.GetValue(name) {
            Some(RecValue::Bool(b)) => Some(*b),
            _ => None,
        }
    }

    /// The elements of member `name` when it holds an array.
    pub fn get_array(&self, name: &str) -> (r: Option<&Vec<RecValue>>)
        ensures
            match r {
                Some(a) => self@.contains_key(name@) && self@[name@] == RecValue::Array(*a),
                None => !(self@.contains_key(name@) && self@[name@] is Array),
            },
    {
        match self.GetValue(name) {
            Some(RecValue::Array(a)) => Some(a),
            _ => None,
        }
    }

    /// Store the text `value` under `name`.
    pub fn set_str(&mut self, name: &str, value: &str)
        ensures
            exists|t: String|
                t@ == value@ && final(self)@ == old(self)@.insert(name@, RecValue::Str(t)),
    {
        self.SetValue(name, RecValue::Str(value.to_owned()));
    }

    /// Store the identifier `value` under `name`.
    pub fn set_ident(&mut self, name: &str, value: &str)
        ensures
            exists|t: String|
                t@ == value@ && final(self)@ == old(self)@.insert(name@, RecValue::Ident(t)),
    {
        self.SetValue(name, RecValue::Ident(value.to_owned()));
    }

    /// Store the flag `value` under `name`.
    pub fn set_bool(&mut self, name: &str, value: bool)
        ensures
            final(self)@ == old(self)@.insert(name@, RecValue::Bool(value)),
    {
        self.SetValue(name, RecValue::Bool(value));
    }
}

/// Reading a member back gives what was last written under its name, and
/// writing one member leaves every other member as it was.
pub proof fn lemma_get_after_set(
    m: Map<Seq<char>, RecValue>,
    name: Seq<char>,
    value: RecValue,
    other: Seq<char>,
)
    ensures
        m.insert(name, value).contains_key(name),
        m.insert(name, value)[name] == value,
        other != name ==> m.insert(name, value).get(other) == m.get(other),
{
}

} // verus!
