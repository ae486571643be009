use vstd::prelude::*;
use vstd::multiset::Multiset;
use vstd::seq_lib::to_multiset_insert;
use crate::snapshot::{DirEntry, SortKey, SortRule};

verus! {

/// `a` comes no later than `b` by character code, compared from the start.
pub open spec fn name_le(a: Seq<char>, b: Seq<char>) -> bool
    decreases a.len(),
{
    if a.len() == 0 {
        true
    } else if b.len() == 0 {
        false
    } else if a[0] as u32 != b[0] as u32 {
        (a[0] as u32) < (b[0] as u32)
    } else {
        name_le(a.drop_first(), b.drop_first())
    }
}

pub proof fn lemma_name_le_total(a: Seq<char>, b: Seq<char>)
    ensures
        name_le(a, b) || name_le(b, a),
    decreases a.len(),
{
    if a.len() > 0 && b.len() > 0 && a[0] as u32 == b[0] as u32 {
        lemma_name_le_total(a.drop_first(), b.drop_first());
    }
}

/// `a` comes no later than `b` by the key alone.
pub open spec fn key_le(a: DirEntry, b: DirEntry, key: SortKey) -> bool {
    match key {
        SortKey::Natural => name_le(a.file_name@, b.file_name@),
        SortKey::Size => a.size <= b.size,
        SortKey::Modified => a.modified <= b.modified,
    }
}

/// `a` may stand before `b` in a listing ordered by `rule`: directories
/// first where the rule asks for it, then by key, descending if reversed.
pub open spec fn entry_le(a: DirEntry, b: DirEntry, rule: SortRule) -> bool {
    if rule.folders_first && a.is_dir != b.is_dir {
        a.is_dir
    } else if rule.reverse {
        key_le(b, a, rule.key)
    } else {
        key_le(a, b, rule.key)
    }
}

/// Every entry may stand before the one that follows it.
pub open spec fn is_ordered(s: Seq<DirEntry>, rule: SortRule) -> bool {
    forall|i: int| 0 <= i < s.len() - 1 ==> #[trigger] entry_le(s[i], s[i + 1], rule)
}

pub proof fn lemma_entry_le_total(a: DirEntry, b: DirEntry, rule: SortRule)
    ensures
        entry_le(a, b, rule) || entry_le(b, a, rule),
{
    lemma_name_le_total(a.file_name@, b.file_name@);
}

fn name_le_exec(a: &String, b: &String) -> (r: bool)
    ensures
        r == name_le(a@, b@),
{
    let la = a.as_str().unicode_len();
    let lb = b.as_str().unicode_len();
    let mut i: usize = 0;
    assert(a@.skip(0) =~= a@ && b@.skip(0) =~= b@);
    while i < la && i < lb
        invariant
            la == a@.len(),
            lb == b@.len(),
            i <= la,
            i <= lb,
            name_le(a@, b@) == name_le(a@.skip(i as int), b@.skip(i as int)),
        decreases la - i,
    {
        let ca = a.as_str().get_char(i);
        let cb = b.as_str().get_char(i);
        let ghost sa = a@.skip(i as int);
        let ghost sb = b@.skip(i as int);
        assert(sa[0] == ca && sb[0] == cb);
        if ca as u32 != cb as u32 {
            return (ca as u32) < (cb as u32);
        }
        assert(sa.drop_first() =~= a@.skip(i + 1));
        assert(sb.drop_first() =~= b@.skip(i + 1));
        i = i + 1;
    }
    assert(i == la ==> a@.skip(i as int).len() == 0);
    assert(i < la ==> b@.skip(i as int).len() == 0 && a@.skip(i as int).len() > 0);
    i == la
}

fn entry_le_exec(a: &DirEntry, b: &DirEntry, rule: SortRule) -> (r: bool)
    ensures
        r == entry_le(*a, *b, rule),
{
    if rule.folders_first && a.is_dir != b.is_dir {
        return a.is_dir;
    }
    let (x, y) = if rule.reverse { (b, a) } else { (a, b) };
    match rule.key {
        SortKey::Natural => name_le_exec(&x.file_name, &y.file_name),
        SortKey::Size => x.size <= y.size,
        SortKey::Modified => x.modified <= y.modified,
    }
}

/// The entries ordered by `rule`; entries that compare equal keep their
/// order.
pub fn sort_entries(entries: Vec<DirEntry>, rule: SortRule) -> (r: Vec<DirEntry>)
    ensures
        is_ordered(r@, rule),
        r@.to_multiset() == entries@.to_multiset(),
{
    broadcast use vstd::multiset::group_multiset_axioms, vstd::seq_lib::group_to_multiset_ensures;

    let mut rest = entries;
    assert(Seq::<DirEntry>::empty().to_multiset() =~= Multiset::empty());
    let mut out: Vec<DirEntry> = Vec::new();
    while rest.len() > 0
        invariant
            is_ordered(out@, rule),
            out@.to_multiset().add(rest@.to_multiset()) == entries@.to_multiset(),
        decreases rest.len(),
    {
        let ghost before_rest = rest@;
        let x = rest.remove(0);
        proof {
            to_multiset_insert(rest@, 0, x);
            assert(rest@.insert(0, x) =~= before_rest);
        }
        let mut j: usize = 0;
        while j < out.len() && entry_le_exec(&out[j], &x, rule)
            invariant
                j <= out@.len(),
                forall|k: int| 0 <= k < j ==> #[trigger] entry_le(out@[k], x, rule),
            decreases out.len() - j,
        {
            j = j + 1;
        }
        let ghost before = out@;
        proof {
            to_multiset_insert(out@, j as int, x);
            if j < out@.len() {
                lemma_entry_le_total(out@[j as int], x, rule);
            }
        }
        out.insert(j, x);
        proof {
            assert(out@ == before.insert(j as int, x));
            assert forall|i: int| 0 <= i < out@.len() - 1 implies #[trigger] entry_le(out@[i], out@[i + 1], rule) by {
                if i < j as int - 1 {
                    assert(out@[i] == before[i] && out@[i + 1] == before[i + 1]);
                    assert(entry_le(before[i], before[i + 1], rule));
                } else if i == j as int - 1 {
                    assert(out@[i] == before[i] && out@[i + 1] == x);
                    assert(entry_le(before[i], x, rule));
                } else if i == j as int {
                    assert(out@[i] == x && out@[i + 1] == before[j as int]);
                    assert(!entry_le(before[j as int], x, rule));
                } else {
                    let k = i - 1;
                    assert(out@[i] == before[k] && out@[i + 1] == before[k + 1]);
                    assert(entry_le(before[k], before[k + 1], rule));
                }
            }
            assert(out@.to_multiset().add(rest@.to_multiset()) =~= before.to_multiset().add(before_rest.to_multiset()));
        }
    }
    assert(out@.to_multiset().add(rest@.to_multiset()) =~= out@.to_multiset());
    out
}

} // verus!
