use vstd::prelude::*;

verus! {

/// The mapping that a table of `(key, count)` rows stands for.
pub open spec fn count_map<K>(s: Seq<(K, u64)>) -> Map<K, nat>
    decreases s.len(),
{
    if s.len() == 0 {
        Map::empty()
    } else {
        count_map(s.drop_last()).insert(s.last().0, s.last().1 as nat)
    }
}

/// Sum of all counts in a table.
pub open spec fn total_of<K>(s: Seq<(K, u64)>) -> nat
    decreases s.len(),
{
    if s.len() == 0 {
        0
    } else {
        total_of(s.drop_last()) + s.last().1 as nat
    }
}

/// No key occurs in two rows.
pub open spec fn keys_unique<K>(s: Seq<(K, u64)>) -> bool {
    forall|i: int, j: int| 0 <= i < j < s.len() ==> s[i].0 != s[j].0
}

pub proof fn lemma_row_in_map<K>(s: Seq<(K, u64)>, i: int)
    requires
        keys_unique(s),
        0 <= i < s.len(),
    ensures
        count_map(s).contains_key(s[i].0),
        count_map(s)[s[i].0] == s[i].1 as nat,
    decreases s.len(),
{
    if i < s.len() - 1 {
        lemma_row_in_map(s.drop_last(), i);
    }
}

pub proof fn lemma_absent_key<K>(s: Seq<(K, u64)>, k: K)
    requires
        forall|i: int| 0 <= i < s.len() ==> #[trigger] s[i].0 != k,
    ensures
        !count_map(s).contains_key(k),
    decreases s.len(),
{
    if s.len() > 0 {
        lemma_absent_key(s.drop_last(), k);
    }
}

pub proof fn lemma_row_below_total<K>(s: Seq<(K, u64)>, i: int)
    requires
        0 <= i < s.len(),
    ensures
        s[i].1 as nat <= total_of(s),
    decreases s.len(),
{
    if i < s.len() - 1 {
        lemma_row_below_total(s.drop_last(), i);
    }
}

pub proof fn lemma_update_row<K>(s: Seq<(K, u64)>, i: int, v: u64)
    requires
        keys_unique(s),
        0 <= i < s.len(),
    ensures
        keys_unique(s.update(i, (s[i].0, v))),
        count_map(s.update(i, (s[i].0, v))) == count_map(s).insert(s[i].0, v as nat),
        total_of(s.update(i, (s[i].0, v))) + s[i].1 == total_of(s) + v,
    decreases s.len(),
{
    let t = s.update(i, (s[i].0, v));
    if i == s.len() - 1 {
        assert(t.drop_last() =~= s.drop_last());
        assert(count_map(t) =~= count_map(s).insert(s[i].0, v as nat));
    } else {
        lemma_update_row(s.drop_last(), i, v);
        assert(t.drop_last() =~= s.drop_last().update(i, (s[i].0, v)));
        assert(count_map(t) =~= count_map(s).insert(s[i].0, v as nat));
    }
}

pub proof fn lemma_push_row<K>(s: Seq<(K, u64)>, k: K, v: u64)
    requires
        keys_unique(s),
        forall|i: int| 0 <= i < s.len() ==> #[trigger] s[i].0 != k,
    ensures
        keys_unique(s.push((k, v))),
        count_map(s.push((k, v))) == count_map(s).insert(k, v as nat),
        total_of(s.push((k, v))) == total_of(s) + v,
{
    assert(s.push((k, v)).drop_last() =~= s);
}

/// Adds one to the count of `code`, adding a row for it when it has none.
pub fn bump_status(rows: &mut Vec<(u16, u64)>, code: u16)
    requires
        keys_unique(old(rows)@),
        total_of(old(rows)@) < u64::MAX,
    ensures
        keys_unique(final(rows)@),
        count_map(final(rows)@) == count_map(old(rows)@).insert(
            code,
            if count_map(old(rows)@).contains_key(code) {
                count_map(old(rows)@)[code] + 1
            } else {
                1
            },
        ),
        total_of(final(rows)@) == total_of(old(rows)@) + 1,
{
    let mut i: usize = 0;
    while i < rows.len()
        invariant
            i <= rows@.len(),
            rows@ == old(rows)@,
            keys_unique(rows@),
            total_of(rows@) < u64::MAX,
            forall|j: int| 0 <= j < i ==> #[trigger] rows@[j].0 != code,
        decreases rows@.len() - i,
    {
        if rows[i].0 == code {
            let n = rows[i].1;
            proof {
                lemma_row_below_total(rows@, i as int);
                lemma_row_in_map(rows@, i as int);
                lemma_update_row(rows@, i as int, (n + 1) as u64);
            }
            rows.set(i, (code, n + 1));
            return;
        }
        i = i + 1;
    }
    proof {
        lemma_absent_key(rows@, code);
        lemma_push_row(rows@, code, 1);
    }
    rows.push((code, 1));
}

/// The table of error rows, with each description seen as its text.
pub open spec fn text_rows(s: Seq<(String, u64)>) -> Seq<(Seq<char>, u64)> {
    s.map_values(|p: (String, u64)| (p.0@, p.1))
}

/// Adds one to the count of `description`, adding a row for it when it has none.
/// Descriptions are grouped by exact text.
pub fn bump_error(rows: &mut Vec<(String, u64)>, description: String)
    requires
        keys_unique(text_rows(old(rows)@)),
        total_of(text_rows(old(rows)@)) < u64::MAX,
    ensures
        keys_unique(text_rows(final(rows)@)),
        count_map(text_rows(final(rows)@)) == count_map(text_rows(old(rows)@)).insert(
            description@,
            if count_map(text_rows(old(rows)@)).contains_key(description@) {
                count_map(text_rows(old(rows)@))[description@] + 1
            } else {
                1
            },
        ),
        total_of(text_rows(final(rows)@)) == total_of(text_rows(old(rows)@)) + 1,
{
    let mut i: usize = 0;
    while i < rows.len()
        invariant
            i <= rows@.len(),
            rows@ == old(rows)@,
            keys_unique(text_rows(rows@)),
            total_of(text_rows(rows@)) < u64::MAX,
            forall|j: int| 0 <= j < i ==> #[trigger] text_rows(rows@)[j].0 != description@,
        decreases rows@.len() - i,
    {
        if rows[i].0 == description {
            let n = rows[i].1;
            let ghost t = text_rows(rows@);
            proof {
                lemma_row_below_total(t, i as int);
                lemma_row_in_map(t, i as int);
                lemma_update_row(t, i as int, (n + 1) as u64);
            }
            rows.set(i, (description, n + 1));
            assert(text_rows(rows@) =~= t.update(i as int, (t[i as int].0, (n + 1) as u64)));
            return;
        }
        i = i + 1;
    }
    let ghost t = text_rows(rows@);
    proof {
        lemma_absent_key(t, description@);
        lemma_push_row(t, description@, 1);
    }
    rows.push((description, 1));
    assert(text_rows(rows@) =~= t.push((description@, 1u64)));
}

} // verus!
