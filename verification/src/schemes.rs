//! The access rules of the log indexes and the messages that clients send.
use vstd::prelude::*;
use vstd::string::*;
use crate::text::string_views;

verus! {

/// An access record: a password that opens the index of the given name.
pub struct AccessRecord {
    pub index: String,
    pub password: String,
}

pub open spec fn record_views(records: Seq<AccessRecord>) -> Seq<(Seq<char>, Seq<char>)> {
    records.map_values(|r: AccessRecord| (r.index@, r.password@))
}

/// The passwords of each index, grouped from the records in their order.
pub open spec fn grouped(records: Seq<(Seq<char>, Seq<char>)>) -> Map<Seq<char>, Seq<Seq<char>>>
    decreases records.len(),
{
    if records.len() == 0 {
        Map::empty()
    } else {
        let m = grouped(records.drop_last());
        let (k, p) = records.last();
        if m.contains_key(k) {
            m.insert(k, m[k].push(p))
        } else {
            m.insert(k, seq![p])
        }
    }
}

/// The passwords that the records give for one index, in their order.
pub open spec fn passwords_for(records: Seq<(Seq<char>, Seq<char>)>, index: Seq<char>) -> Seq<
    Seq<char>,
>
    decreases records.len(),
{
    if records.len() == 0 {
        Seq::<Seq<char>>::empty()
    } else if records.last().0 == index {
        passwords_for(records.drop_last(), index).push(records.last().1)
    } else {
        passwords_for(records.drop_last(), index)
    }
}

/// Whether the rules let a client with `password` write to `index`: an index
/// without rules is open, one with rules takes only their passwords.
pub open spec fn allows(rules: Map<Seq<char>, Seq<Seq<char>>>, index: Seq<char>, password: Seq<
    char,
>) -> bool {
    !rules.contains_key(index) || rules[index].contains(password)
}

pub open spec fn distinct(keys: Seq<Seq<char>>) -> bool {
    forall|i: int, j: int| 0 <= i < keys.len() && 0 <= j < keys.len() && i != j ==> keys[i] != keys[j]
}

/// The map that a table of distinct keys and their values stands for.
pub open spec fn table_map(keys: Seq<Seq<char>>, vals: Seq<Seq<Seq<char>>>) -> Map<
    Seq<char>,
    Seq<Seq<char>>,
> {
    Map::new(|k: Seq<char>| keys.contains(k), |k: Seq<char>| vals[keys.index_of(k)])
}

pub open spec fn table_views(vals: Seq<Vec<String>>) -> Seq<Seq<Seq<char>>> {
    vals.map_values(|v: Vec<String>| string_views(v@))
}

/// The access rules: for each index that has any, the passwords that open it.
pub struct AccessHashMap {
    indexes: Vec<String>,
    passwords: Vec<Vec<String>>,
}

impl AccessHashMap {
    #[verifier::type_invariant]
    spec fn well_formed(self) -> bool {
        &&& self.indexes@.len() == self.passwords@.len()
        &&& distinct(string_views(self.indexes@))
    }

    /// The rules as a map from index name to its passwords.
    pub closed spec fn rules(self) -> Map<Seq<char>, Seq<Seq<char>>> {
        table_map(string_views(self.indexes@), table_views(self.passwords@))
    }
}

proof fn lemma_index_of_distinct(keys: Seq<Seq<char>>, j: int)
    requires
        distinct(keys),
        0 <= j < keys.len(),
    ensures
        keys.index_of(keys[j]) == j,
{
    assert(keys.contains(keys[j]));
    let i = keys.index_of(keys[j]);
    assert(0 <= i < keys.len() && keys[i] == keys[j]);
}

proof fn lemma_table_update(keys: Seq<Seq<char>>, vals: Seq<Seq<Seq<char>>>, j: int, v: Seq<
    Seq<char>,
>)
    requires
        distinct(keys),
        keys.len() == vals.len(),
        0 <= j < keys.len(),
    ensures
        table_map(keys, vals.update(j, v)) == table_map(keys, vals).insert(keys[j], v),
{
    lemma_index_of_distinct(keys, j);
    assert forall|k: Seq<char>| #[trigger] keys.contains(k) && k != keys[j] implies keys.index_of(
        k,
    ) != j by {
        let i = keys.index_of(k);
        assert(0 <= i < keys.len() && keys[i] == k);
    }
    assert(table_map(keys, vals.update(j, v)) =~= table_map(keys, vals).insert(keys[j], v));
}

proof fn lemma_table_push(keys: Seq<Seq<char>>, vals: Seq<Seq<Seq<char>>>, k: Seq<char>, v: Seq<
    Seq<char>,
>)
    requires
        distinct(keys),
        keys.len() == vals.len(),
        !keys.contains(k),
    ensures
        distinct(keys.push(k)),
        table_map(keys.push(k), vals.push(v)) == table_map(keys, vals).insert(k, v),
{
    let nk = keys.push(k);
    assert(distinct(nk)) by {
        assert forall|i: int, j: int| 0 <= i < nk.len() && 0 <= j < nk.len() && i != j implies nk[i]
            != nk[j] by {
            if i < keys.len() && j < keys.len() {
                assert(nk[i] == keys[i] && nk[j] == keys[j]);
            } else if i < keys.len() {
                assert(nk[i] == keys[i]);
            } else if j < keys.len() {
                assert(nk[j] == keys[j]);
            }
        }
    }
    lemma_index_of_distinct(nk, keys.len() as int);
    assert forall|q: Seq<char>| #[trigger] keys.contains(q) implies nk.index_of(q) == keys.index_of(
        q,
    ) by {
        let i = keys.index_of(q);
        assert(0 <= i < keys.len() && keys[i] == q);
        assert(nk[i] == q);
        lemma_index_of_distinct(nk, i);
    }
    assert forall|q: Seq<char>| #[trigger] nk.contains(q) implies keys.contains(q) || q == k by {
        let i = nk.index_of(q);
        if i < keys.len() {
            assert(keys[i] == q);
        }
    }
    let m1 = table_map(nk, vals.push(v));
    let m2 = table_map(keys, vals).insert(k, v);
    assert forall|q: Seq<char>| #[trigger] keys.contains(q) implies nk.contains(q) by {
        let i = keys.index_of(q);
        assert(nk[i] == q);
    }
    assert(nk[keys.len() as int] == k);
    assert(nk.contains(k));
    assert(m1.dom() =~= m2.dom());
    assert forall|q: Seq<char>| #[trigger] m1.dom().contains(q) implies m1[q] == m2[q] by {
        if q != k {
            assert(keys.contains(q));
            let i = keys.index_of(q);
            assert(0 <= i < keys.len());
            assert(vals.push(v)[i] == vals[i]);
        }
    }
    assert(m1 =~= m2);
}

impl AccessHashMap {
    /// No rules: every index is open.
    pub fn new() -> (r: Self)
        ensures
            r.rules() == Map::<Seq<char>, Seq<Seq<char>>>::empty(),
    {
        let r = AccessHashMap { indexes: Vec::new(), passwords: Vec::new() };
        assert(r.rules() =~= Map::<Seq<char>, Seq<Seq<char>>>::empty());
        r
    }

    /// The rules that the access records give: each record adds its password
    /// to its index, in the records' order.
    pub fn from_records(records: &Vec<AccessRecord>) -> (r: Self)
        ensures
            r.rules() == grouped(record_views(records@)),
    {
        let ghost rv = record_views(records@);
        let mut indexes: Vec<String> = Vec::new();
        let mut passwords: Vec<Vec<String>> = Vec::new();
        let mut i: usize = 0;
        assert(table_map(string_views(indexes@), table_views(passwords@)) =~= grouped(
            rv.take(0),
        ));
        while i < records.len()
            invariant
                i <= records.len(),
                rv == record_views(records@),
                indexes@.len() == passwords@.len(),
                distinct(string_views(indexes@)),
                table_map(string_views(indexes@), table_views(passwords@)) == grouped(
                    rv.take(i as int),
                ),
            decreases records.len() - i,
        {
            let ghost keys = string_views(indexes@);
            let ghost vals = table_views(passwords@);
            let rec = &records[i];
            assert(rv.take(i + 1).drop_last() =~= rv.take(i as int));
            assert(rv.take(i + 1).last() == (rec.index@, rec.password@));
            let mut j: usize = 0;
            let mut found = false;
            while j < indexes.len() && !found
                invariant
                    j <= indexes.len(),
                    keys == string_views(indexes@),
                    !found ==> forall|m: int| 0 <= m < j ==> keys[m] != rec.index@,
                    found ==> j < indexes.len() && keys[j as int] == rec.index@,
                decreases indexes.len() - j + (if found { 0int } else { 1int }),
            {
                if indexes[j] == rec.index {
                    found = true;
                } else {
                    j = j + 1;
                }
            }
            if found {
                proof {
                    lemma_index_of_distinct(keys, j as int);
                    assert(keys.contains(rec.index@));
                }
                let ghost old_pw = passwords@;
                let mut ps = passwords.remove(j);
                ps.push(rec.password.clone());
                let ghost new_ps = ps;
                passwords.insert(j, ps);
                proof {
                    assert(passwords@ =~= old_pw.update(j as int, new_ps));
                    assert(string_views(new_ps@) =~= vals[j as int].push(rec.password@));
                    assert(table_views(passwords@) =~= vals.update(
                        j as int,
                        vals[j as int].push(rec.password@),
                    ));
                    lemma_table_update(keys, vals, j as int, vals[j as int].push(rec.password@));
                }
            } else {
                proof {
                    assert(!keys.contains(rec.index@));
                    lemma_table_push(keys, vals, rec.index@, seq![rec.password@]);
                }
                indexes.push(rec.index.clone());
                let mut ps: Vec<String> = Vec::new();
                ps.push(rec.password.clone());
                let ghost new_ps = ps;
                passwords.push(ps);
                proof {
                    assert(string_views(new_ps@) =~= seq![rec.password@]);
                    assert(string_views(indexes@) =~= keys.push(rec.index@));
                    assert(table_views(passwords@) =~= vals.push(seq![rec.password@]));
                }
            }
            i = i + 1;
        }
        assert(rv.take(records.len() as int) =~= rv);
        AccessHashMap { indexes, passwords }
    }

    /// The passwords of `index`, if it has rules.
    pub fn passwords(&self, index: &String) -> (r: Option<&Vec<String>>)
        ensures
            r is Some == self.rules().contains_key(index@),
            r matches Some(ps) ==> string_views(ps@) == self.rules()[index@],
    {
        proof {
            use_type_invariant(self);
        }
        let ghost keys = string_views(self.indexes@);
        let mut j: usize = 0;
        while j < self.indexes.len()
            invariant
                j <= self.indexes@.len(),
                keys == string_views(self.indexes@),
                distinct(keys),
                self.indexes@.len() == self.passwords@.len(),
                forall|m: int| 0 <= m < j ==> keys[m] != index@,
            decreases self.indexes.len() - j,
        {
            if self.indexes[j] == *index {
                proof {
                    lemma_index_of_distinct(keys, j as int);
                    assert(keys.contains(index@));
                }
                return Some(&self.passwords[j]);
            }
            j = j + 1;
        }
        None
    }

    /// The rules as index names and their passwords.
    pub fn inner(&self) -> (r: (&Vec<String>, &Vec<Vec<String>>))
        ensures
            r.0@.len() == r.1@.len(),
            table_map(string_views(r.0@), table_views(r.1@)) == self.rules(),
            distinct(string_views(r.0@)),
    {
        proof {
            use_type_invariant(self);
        }
        (&self.indexes, &self.passwords)
    }
}

/// Whether `password` is one of `passwords`.
pub fn contains_string(passwords: &Vec<String>, password: &String) -> (r: bool)
    ensures
        r == string_views(passwords@).contains(password@),
{
    let mut i: usize = 0;
    while i < passwords.len()
        invariant
            i <= passwords.len(),
            forall|m: int| 0 <= m < i ==> passwords@[m]@ != password@,
        decreases passwords.len() - i,
    {
        if passwords[i] == *password {
            assert(string_views(passwords@)[i as int] == password@);
            return true;
        }
        i = i + 1;
    }
    false
}

/// A log entry that a client sends: the index, the password it presents, and
/// the entry itself as JSON text.
#[derive(Clone, Debug)]
pub struct LogMessage {
    pub index: String,
    pub token: String,
    pub data: String,
}

/// How a log message reads in the event log: `index: <index> data <data>`.
pub open spec fn log_message_text(index: Seq<char>, data: Seq<char>) -> Seq<char> {
    "index: "@ + index + " data "@ + data
}

impl LogMessage {
    /// `index: <index> data <data>`.
    pub fn describe(&self) -> (r: String)
        ensures
            r@ == log_message_text(self.index@, self.data@),
    {
        let mut r = String::from_str("index: ");
        r.append(self.index.as_str());
        r.append(" data ");
        r.append(self.data.as_str());
        r
    }
}

// ---------------------------------------------------------------------------
// Laws
// ---------------------------------------------------------------------------

/// An index has rules exactly when some record names it, and its passwords
/// are those of its records, in their order.
pub proof fn grouped_collects_records(records: Seq<(Seq<char>, Seq<char>)>, index: Seq<char>)
    ensures
        grouped(records).contains_key(index) <==> exists|i: int|
            0 <= i < records.len() && (#[trigger] records[i]).0 == index,
        grouped(records).contains_key(index) ==> grouped(records)[index] == passwords_for(
            records,
            index,
        ),
        !grouped(records).contains_key(index) ==> passwords_for(records, index) == Seq::<
            Seq<char>,
        >::empty(),
    decreases records.len(),
{
    if records.len() > 0 {
        let rest = records.drop_last();
        grouped_collects_records(rest, index);
        if grouped(records).contains_key(index) {
            if records.last().0 != index {
                let i = choose|i: int| 0 <= i < rest.len() && (#[trigger] rest[i]).0 == index;
                assert(records[i] == rest[i]);
            }
        }
        assert forall|i: int| 0 <= i < rest.len() && (#[trigger] rest[i]).0 == index implies exists|
            m: int,
        | 0 <= m < records.len() && (#[trigger] records[m]).0 == index by {
            assert(records[i] == rest[i]);
        }
        if exists|i: int| 0 <= i < records.len() && (#[trigger] records[i]).0 == index {
            let i = choose|i: int| 0 <= i < records.len() && (#[trigger] records[i]).0 == index;
            if i < rest.len() {
                assert(rest[i] == records[i]);
            }
        }
    }
}

/// A client is let in exactly when no record names its index, or some record
/// pairs its index with the password it presents.
pub proof fn access_follows_records(
    records: Seq<(Seq<char>, Seq<char>)>,
    index: Seq<char>,
    password: Seq<char>,
)
    ensures
        allows(grouped(records), index, password) <==> (forall|i: int|
            0 <= i < records.len() ==> (#[trigger] records[i]).0 != index) || records.contains(
            (index, password),
        ),
{
    grouped_collects_records(records, index);
    lemma_passwords_for_contains(records, index, password);
}

proof fn lemma_passwords_for_contains(
    records: Seq<(Seq<char>, Seq<char>)>,
    index: Seq<char>,
    password: Seq<char>,
)
    ensures
        passwords_for(records, index).contains(password) <==> records.contains((index, password)),
    decreases records.len(),
{
    if records.len() > 0 {
        let rest = records.drop_last();
        lemma_passwords_for_contains(rest, index, password);
        let pr = passwords_for(rest, index);
        if records.contains((index, password)) {
            let i = choose|i: int| 0 <= i < records.len() && records[i] == (index, password);
            if i < rest.len() {
                assert(rest[i] == records[i]);
                assert(rest.contains((index, password)));
                if records.last().0 == index {
                    let k = choose|k: int| 0 <= k < pr.len() && pr[k] == password;
                    assert(pr.push(records.last().1)[k] == password);
                }
            } else {
                assert(pr.push(records.last().1)[pr.len() as int] == password);
            }
        }
        if passwords_for(records, index).contains(password) {
            if records.last().0 == index {
                let s = pr.push(records.last().1);
                let k = choose|k: int| 0 <= k < s.len() && s[k] == password;
                if k < pr.len() {
                    assert(pr[k] == password);
                    let i = choose|i: int| 0 <= i < rest.len() && rest[i] == (index, password);
                    assert(records[i] == rest[i]);
                } else {
                    assert(records[records.len() - 1] == (index, password));
                }
            } else {
                let i = choose|i: int| 0 <= i < rest.len() && rest[i] == (index, password);
                assert(records[i] == rest[i]);
            }
        }
    }
}

/// Rules built with no records let everyone in.
pub proof fn no_records_open_everything(index: Seq<char>, password: Seq<char>)
    ensures
        allows(grouped(Seq::<(Seq<char>, Seq<char>)>::empty()), index, password),
{
}

} // verus!
