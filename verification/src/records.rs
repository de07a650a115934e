use vstd::prelude::*;

verus! {

/// One per-file record of the change report: the file's path (the key,
/// unique over the whole report) and the accumulated text of its change.
pub struct FileChangeRecord {
    pub path: String,
    pub text: String,
}

/// The mathematical model of the record list: each record as the pair of
/// its key and its accumulated text.
pub open spec fn recs_view(rs: Seq<FileChangeRecord>) -> Seq<(Seq<char>, Seq<char>)> {
    rs.map(|i: int, r: FileChangeRecord| (r.path@, r.text@))
}

/// The position of the first record keyed by `k`, if any.
pub open spec fn first_key_index(m: Seq<(Seq<char>, Seq<char>)>, k: Seq<char>) -> Option<int>
    decreases m.len(),
{
    if m.len() == 0 {
        None
    } else if m[0].0 == k {
        Some(0int)
    } else {
        match first_key_index(m.drop_first(), k) {
            Some(i) => Some(i + 1),
            None => None,
        }
    }
}

/// Seed or overwrite: the record keyed by `k` gets exactly the text `v`,
/// in place if the key is present, appended at the end if it is new.
pub open spec fn record_set(
    m: Seq<(Seq<char>, Seq<char>)>,
    k: Seq<char>,
    v: Seq<char>,
) -> Seq<(Seq<char>, Seq<char>)> {
    match first_key_index(m, k) {
        Some(j) => m.update(j, (k, v)),
        None => m.push((k, v)),
    }
}

/// Accumulate: the text `v` is appended to the record keyed by `k`,
/// which is created empty-seeded (with `v` alone) if the key is new.
pub open spec fn record_append(
    m: Seq<(Seq<char>, Seq<char>)>,
    k: Seq<char>,
    v: Seq<char>,
) -> Seq<(Seq<char>, Seq<char>)> {
    match first_key_index(m, k) {
        Some(j) => m.update(j, (k, m[j].1 + v)),
        None => m.push((k, v)),
    }
}

/// No two records share a key.
pub open spec fn distinct_keys(m: Seq<(Seq<char>, Seq<char>)>) -> bool {
    forall|i: int, j: int| 0 <= i < j < m.len() ==> m[i].0 != m[j].0
}

pub proof fn lemma_first_key_index_spec(m: Seq<(Seq<char>, Seq<char>)>, k: Seq<char>)
    ensures
        match first_key_index(m, k) {
            Some(j) => 0 <= j < m.len() && m[j].0 == k && (forall|i: int|
                0 <= i < j ==> m[i].0 != k),
            None => forall|i: int| 0 <= i < m.len() ==> m[i].0 != k,
        },
    decreases m.len(),
{
    if m.len() == 0 {
    } else if m[0].0 == k {
    } else {
        let rest = m.drop_first();
        lemma_first_key_index_spec(rest, k);
        assert(forall|i: int| 0 <= i < rest.len() ==> rest[i] == m[i + 1]);
        match first_key_index(rest, k) {
            Some(j) => {
                assert(m[j + 1].0 == rest[j].0);
                assert forall|i: int| 0 <= i < j + 1 implies m[i].0 != k by {
                    if i > 0 {
                        assert(m[i].0 == rest[i - 1].0);
                    }
                }
            },
            None => {
                assert forall|i: int| 0 <= i < m.len() implies m[i].0 != k by {
                    if i > 0 {
                        assert(m[i].0 == rest[i - 1].0);
                    }
                }
            },
        }
    }
}

pub proof fn lemma_first_key_index_at(m: Seq<(Seq<char>, Seq<char>)>, k: Seq<char>, j: int)
    requires
        0 <= j < m.len(),
        m[j].0 == k,
        forall|i: int| 0 <= i < j ==> m[i].0 != k,
    ensures
        first_key_index(m, k) == Some(j),
    decreases m.len(),
{
    if m[0].0 == k {
        assert(j == 0);
    } else {
        assert(forall|i: int| 0 <= i < m.drop_first().len() ==> m.drop_first()[i] == m[i + 1]);
        lemma_first_key_index_at(m.drop_first(), k, j - 1);
    }
}

pub proof fn lemma_first_key_index_none(m: Seq<(Seq<char>, Seq<char>)>, k: Seq<char>)
    requires
        forall|i: int| 0 <= i < m.len() ==> m[i].0 != k,
    ensures
        first_key_index(m, k) is None,
    decreases m.len(),
{
    if m.len() == 0 {
    } else {
        assert(forall|i: int| 0 <= i < m.drop_first().len() ==> m.drop_first()[i] == m[i + 1]);
        lemma_first_key_index_none(m.drop_first(), k);
    }
}

/// Seeding or overwriting a record keeps the keys distinct.
pub proof fn lemma_record_set_distinct(m: Seq<(Seq<char>, Seq<char>)>, k: Seq<char>, v: Seq<char>)
    requires
        distinct_keys(m),
    ensures
        distinct_keys(record_set(m, k, v)),
{
    lemma_first_key_index_spec(m, k);
    match first_key_index(m, k) {
        Some(j) => {
            assert forall|a: int, b: int|
                0 <= a < b < record_set(m, k, v).len() implies record_set(m, k, v)[a].0
                != record_set(m, k, v)[b].0 by {
                assert(m[j].0 == k);
            }
        },
        None => {
            assert forall|a: int, b: int|
                0 <= a < b < record_set(m, k, v).len() implies record_set(m, k, v)[a].0
                != record_set(m, k, v)[b].0 by {
                if b == m.len() as int {
                    assert(record_set(m, k, v)[b].0 == k);
                }
            }
        },
    }
}

/// Appending text to a record keeps the keys distinct.
pub proof fn lemma_record_append_distinct(
    m: Seq<(Seq<char>, Seq<char>)>,
    k: Seq<char>,
    v: Seq<char>,
)
    requires
        distinct_keys(m),
    ensures
        distinct_keys(record_append(m, k, v)),
{
    lemma_first_key_index_spec(m, k);
    match first_key_index(m, k) {
        Some(j) => {
            assert forall|a: int, b: int|
                0 <= a < b < record_append(m, k, v).len() implies record_append(m, k, v)[a].0
                != record_append(m, k, v)[b].0 by {
                assert(m[j].0 == k);
            }
        },
        None => {
            assert forall|a: int, b: int|
                0 <= a < b < record_append(m, k, v).len() implies record_append(m, k, v)[a].0
                != record_append(m, k, v)[b].0 by {
                if b == m.len() as int {
                    assert(record_append(m, k, v)[b].0 == k);
                }
            }
        },
    }
}

/// The position of the first record whose path equals `path`, if any.
fn find_record(recs: &Vec<FileChangeRecord>, path: &String) -> (r: Option<usize>)
    ensures
        match r {
            Some(j) => first_key_index(recs_view(recs@), path@) == Some(j as int),
            None => first_key_index(recs_view(recs@), path@) is None,
        },
{
    let ghost m = recs_view(recs@);
    let mut i: usize = 0;
    while i < recs.len()
        invariant
            0 <= i <= recs.len(),
            m == recs_view(recs@),
            m.len() == recs.len(),
            forall|a: int| 0 <= a < i ==> m[a].0 != path@,
        decreases recs.len() - i,
    {
        if recs[i].path.eq(path) {
            proof {
                lemma_first_key_index_at(m, path@, i as int);
            }
            return Some(i);
        }
        i = i + 1;
    }
    proof {
        lemma_first_key_index_none(m, path@);
    }
    None
}

/// Seed or overwrite the record for `path` with exactly the text `text`.
pub fn set_record(recs: &mut Vec<FileChangeRecord>, path: &String, text: String)
    ensures
        recs_view(final(recs)@) == record_set(recs_view(old(recs)@), path@, text@),
{
    let ghost m = recs_view(recs@);
    let ghost tv = text@;
    proof {
        assert(m.len() == recs@.len());
        lemma_first_key_index_spec(m, path@);
    }
    match find_record(recs, path) {
        Some(j) => {
            let _ = recs.remove(j);
            recs.insert(j, FileChangeRecord { path: path.clone(), text });
            proof {
                assert(recs_view(recs@) =~= m.update(j as int, (path@, tv)));
            }
        },
        None => {
            recs.push(FileChangeRecord { path: path.clone(), text });
            proof {
                assert(recs_view(recs@) =~= m.push((path@, tv)));
            }
        },
    }
}

/// Append `text` to the record for `path`, creating the record with `text`
/// alone where the path has no record yet.
pub fn append_record(recs: &mut Vec<FileChangeRecord>, path: &String, text: String)
    ensures
        recs_view(final(recs)@) == record_append(recs_view(old(recs)@), path@, text@),
{
    let ghost m = recs_view(recs@);
    let ghost tv = text@;
    proof {
        assert(m.len() == recs@.len());
        lemma_first_key_index_spec(m, path@);
    }
    match find_record(recs, path) {
        Some(j) => {
            let r_old = recs.remove(j);
            let joined = r_old.text.concat(text.as_str());
            recs.insert(j, FileChangeRecord { path: path.clone(), text: joined });
            proof {
                assert(recs_view(recs@) =~= m.update(j as int, (path@, m[j as int].1 + tv)));
            }
        },
        None => {
            recs.push(FileChangeRecord { path: path.clone(), text });
            proof {
                assert(recs_view(recs@) =~= m.push((path@, tv)));
            }
        },
    }
}

} // verus!
