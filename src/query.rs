use vstd::prelude::*;
use crate::item::{entries, TodoEntry, TodoItem};

verus! {

/// `needle` occurs in `hay` starting at position `i`.
pub open spec fn contains_at(hay: Seq<char>, needle: Seq<char>, i: int) -> bool {
    &&& 0 <= i
    &&& i + needle.len() <= hay.len()
    &&& hay.subrange(i, i + needle.len()) == needle
}

/// `needle` occurs somewhere in `hay` as a contiguous run of characters.
pub open spec fn is_substring(needle: Seq<char>, hay: Seq<char>) -> bool {
    exists|i: int| contains_at(hay, needle, i)
}

/// The filter text of a query, if one was given.
pub open spec fn needle_of(find: Option<String>) -> Option<Seq<char>> {
    match find {
        Some(s) => Some(s@),
        None => None,
    }
}

/// The entries a query selects: every entry when no filter is given, else the
/// entries whose title holds the filter text, in their original order.
pub open spec fn matching(items: Seq<TodoEntry>, needle: Option<Seq<char>>) -> Seq<TodoEntry> {
    match needle {
        Some(n) => items.filter(|e: TodoEntry| is_substring(n, e.title)),
        None => items,
    }
}

/// Every text holds the empty text.
pub proof fn lemma_empty_needle_everywhere(hay: Seq<char>)
    ensures
        is_substring(Seq::empty(), hay),
{
    assert(hay.subrange(0, 0) =~= Seq::<char>::empty());
    assert(contains_at(hay, Seq::empty(), 0));
}

/// Filtering with the empty text selects every item, in the original order.
pub proof fn lemma_empty_needle_keeps_all(items: Seq<TodoEntry>)
    ensures
        matching(items, Some(Seq::empty())) == items,
    decreases items.len(),
{
    reveal(Seq::filter);
    if items.len() > 0 {
        lemma_empty_needle_keeps_all(items.drop_last());
        lemma_empty_needle_everywhere(items.last().title);
        assert(items.drop_last().push(items.last()) =~= items);
    }
}

/// Without a filter a query selects the whole list, unchanged.
pub proof fn lemma_no_needle_keeps_all(items: Seq<TodoEntry>)
    ensures
        matching(items, None) == items,
{
}

/// Case-sensitive substring test on characters.
pub fn title_contains(title: &str, needle: &str) -> (r: bool)
    ensures
        r == is_substring(needle@, title@),
{
    let n = title.unicode_len();
    let m = needle.unicode_len();
    if m > n {
        return false;
    }
    let mut i: usize = 0;
    while i <= n - m
        invariant
            n == title@.len(),
            m == needle@.len(),
            m <= n,
            forall|j: int| 0 <= j < i ==> !contains_at(title@, needle@, j),
        decreases n - m + 1 - i,
    {
        let mut k: usize = 0;
        while k < m && title.get_char(i + k) == needle.get_char(k)
            invariant
                n == title@.len(),
                m == needle@.len(),
                i + m <= n,
                k <= m,
                forall|t: int| 0 <= t < k ==> title@[i + t] == needle@[t],
            decreases m - k,
        {
            k += 1;
        }
        if k == m {
            assert(title@.subrange(i as int, i + m) =~= needle@);
            assert(contains_at(title@, needle@, i as int));
            return true;
        }
        assert(title@.subrange(i as int, i + m)[k as int] != needle@[k as int]);
        i += 1;
    }
    false
}

/// The items that a query selects, in order; the list itself is left as it is.
pub fn find_todo(find: Option<String>, todo_list: &Vec<TodoItem>) -> (r: Vec<TodoItem>)
    ensures
        entries(r@) == matching(entries(todo_list@), needle_of(find)),
{
    let mut r: Vec<TodoItem> = Vec::new();
    let mut i: usize = 0;
    match find {
        None => {
            while i < todo_list.len()
                invariant
                    i <= todo_list@.len(),
                    entries(r@) == entries(todo_list@.subrange(0, i as int)),
                decreases todo_list@.len() - i,
            {
                r.push(todo_list[i].duplicate());
                assert(entries(todo_list@.subrange(0, i + 1)) =~= entries(
                    todo_list@.subrange(0, i as int),
                ).push(todo_list@[i as int]@));
                i += 1;
            }
            assert(todo_list@.subrange(0, todo_list@.len() as int) =~= todo_list@);
        },
        Some(needle) => {
            let ghost pred = |e: TodoEntry| is_substring(needle@, e.title);
            while i < todo_list.len()
                invariant
                    i <= todo_list@.len(),
                    pred == (|e: TodoEntry| is_substring(needle@, e.title)),
                    entries(r@) == entries(todo_list@.subrange(0, i as int)).filter(pred),
                decreases todo_list@.len() - i,
            {
                let ghost before = entries(todo_list@.subrange(0, i as int));
                let ghost after = entries(todo_list@.subrange(0, i + 1));
                assert(after.drop_last() =~= before);
                assert(after.last() == todo_list@[i as int]@);
                proof {
                    reveal(Seq::filter);
                }
                if title_contains(todo_list[i].title.as_str(), needle.as_str()) {
                    r.push(todo_list[i].duplicate());
                    assert(entries(r@) =~= after.filter(pred));
                } else {
                    assert(entries(r@) =~= after.filter(pred));
                }
                i += 1;
            }
            assert(todo_list@.subrange(0, todo_list@.len() as int) =~= todo_list@);
        },
    }
    r
}

/// The completion mark shown beside an item: `X` when done, a space otherwise.
pub fn status_mark(item: &TodoItem) -> (r: &'static str)
    ensures
        r@ == (if item.done { "X"@ } else { " "@ }),
{
    if item.done {
        "X"
    } else {
        " "
    }
}

} // verus!
