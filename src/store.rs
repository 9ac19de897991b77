use vstd::prelude::*;

verus! {

/// A saved problem as contracts see it.
pub struct RecordView {
    pub key: int,
    pub problem_id: int,
    pub name: Seq<char>,
    pub url: Seq<char>,
}

/// A saved problem: `id` is the row key that the store assigned, `problem_id` the
/// problem's identifier in the archive.
#[derive(Clone, Debug)]
pub struct Problem {
    pub id: i32,
    pub problem_id: i32,
    pub url: String,
    pub name: String,
}

impl View for Problem {
    type V = RecordView;

    open spec fn view(&self) -> RecordView {
        RecordView {
            key: self.id as int,
            problem_id: self.problem_id as int,
            name: self.name@,
            url: self.url@,
        }
    }
}

/// The fields of a problem that an upsert writes.
#[derive(Clone, Debug)]
pub struct NewProblem {
    pub problem_id: i32,
    pub name: String,
    pub url: String,
}

/// Why a write to the table failed.
#[derive(Clone, Copy, Debug, PartialEq, Eq, Structural)]
pub enum StoreError {
    /// Every row key has been handed out.
    KeysExhausted,
}

/// Whether some row holds problem `pid`.
pub open spec fn has_id(rows: Seq<RecordView>, pid: int) -> bool {
    exists|i: int| 0 <= i < rows.len() && rows[i].problem_id == pid
}

/// The position of a row that holds problem `pid`, where there is one.
pub open spec fn index_of(rows: Seq<RecordView>, pid: int) -> int {
    choose|i: int| 0 <= i < rows.len() && rows[i].problem_id == pid
}

/// The row that holds problem `pid`.
pub open spec fn entry(rows: Seq<RecordView>, pid: int) -> Option<RecordView> {
    if has_id(rows, pid) {
        Some(rows[index_of(rows, pid)])
    } else {
        None
    }
}

/// No two rows hold the same problem.
pub open spec fn ids_unique(rows: Seq<RecordView>) -> bool {
    forall|i: int, j: int|
        0 <= i < rows.len() && 0 <= j < rows.len() && rows[i].problem_id == rows[j].problem_id
            ==> i == j
}

/// The rows after an upsert of problem `pid`: its row, where there is one, gets the new
/// name and url and keeps its key; otherwise a row with key `key` is appended.
pub open spec fn upsert_rows(
    rows: Seq<RecordView>,
    key: int,
    pid: int,
    name: Seq<char>,
    url: Seq<char>,
) -> Seq<RecordView> {
    if has_id(rows, pid) {
        let i = index_of(rows, pid);
        rows.update(i, RecordView { key: rows[i].key, problem_id: pid, name, url })
    } else {
        rows.push(RecordView { key, problem_id: pid, name, url })
    }
}

/// The rows after deleting problem `pid`: its row goes, the others keep their order.
pub open spec fn delete_rows(rows: Seq<RecordView>, pid: int) -> Seq<RecordView> {
    if has_id(rows, pid) {
        rows.remove(index_of(rows, pid))
    } else {
        rows
    }
}

/// The table of saved problems. Each problem has at most one row; row keys grow with
/// each insertion and are never handed out again.
pub struct Database {
    rows: Vec<Problem>,
    next_key: i32,
}

impl View for Database {
    type V = Seq<RecordView>;

    closed spec fn view(&self) -> Seq<RecordView> {
        self.rows@.map_values(|p: Problem| p@)
    }
}

impl Database {
    /// The key that the next inserted row gets.
    pub closed spec fn next_key(&self) -> int {
        self.next_key as int
    }

    /// Problems are unique, keys ascend along the rows, and all lie in `[1, next_key)`.
    pub closed spec fn wf(&self) -> bool {
        &&& 1 <= self.next_key
        &&& ids_unique(self@)
        &&& forall|i: int| 0 <= i < self@.len() ==> 1 <= #[trigger] self@[i].key < self.next_key
        &&& forall|i: int, j: int| 0 <= i < j < self@.len() ==> self@[i].key < self@[j].key
    }

    /// An empty table.
    pub fn new() -> (t: Database)
        ensures
            t.wf(),
            t@ == Seq::<RecordView>::empty(),
            t.next_key() == 1,
    {
        let t = Database { rows: Vec::new(), next_key: 1 };
        assert(t@ =~= Seq::<RecordView>::empty());
        t
    }

    /// The position of problem `pid`'s row.
    fn find(&self, pid: i32) -> (r: Option<usize>)
        requires
            self.wf(),
        ensures
            r matches Some(i) ==> i < self@.len() && self@[i as int].problem_id == pid,
            r is None ==> !has_id(self@, pid as int),
    {
        let mut i: usize = 0;
        while i < self.rows.len()
            invariant
                i <= self.rows@.len(),
                forall|j: int| 0 <= j < i ==> self@[j].problem_id != pid,
            decreases self.rows@.len() - i,
        {
            if self.rows[i].problem_id == pid {
                return Some(i);
            }
            i = i + 1;
        }
        None
    }

    /// Inserts problem `problem_id`, or, where it has a row already, overwrites that
    /// row's name and url in place. Fails, changing nothing, only where a new row is
    /// needed and no key is left.
    pub fn save_problem(&mut self, problem_id: i32, name: String, url: String)
        -> (r: Result<(), StoreError>)
        requires
            old(self).wf(),
        ensures
            final(self).wf(),
            r is Err <==> !has_id(old(self)@, problem_id as int) && old(self).next_key()
                == i32::MAX,
            r is Ok ==> final(self)@ == upsert_rows(
                old(self)@,
                old(self).next_key(),
                problem_id as int,
                name@,
                url@,
            ),
            r is Ok ==> final(self).next_key() == if has_id(old(self)@, problem_id as int) {
                old(self).next_key()
            } else {
                old(self).next_key() + 1
            },
            r is Err ==> *final(self) == *old(self),
    {
        match self.find(problem_id) {
            Some(i) => {
                let ghost rows = self@;
                let key = self.rows[i].id;
                assert(has_id(rows, problem_id as int));
                assert(index_of(rows, problem_id as int) == i as int);
                self.rows.set(i, Problem { id: key, problem_id, url, name });
                assert(self@ =~= upsert_rows(rows, self.next_key as int, problem_id as int, name@, url@));
                Ok(())
            },
            None => {
                if self.next_key == i32::MAX {
                    return Err(StoreError::KeysExhausted);
                }
                let ghost rows = self@;
                let key = self.next_key;
                self.rows.push(Problem { id: key, problem_id, url, name });
                self.next_key = key + 1;
                assert(self@ =~= upsert_rows(rows, key as int, problem_id as int, name@, url@));
                Ok(())
            },
        }
    }

    /// Removes problem `problem_id`'s row; where it has none, nothing changes.
    pub fn delete_problem(&mut self, problem_id: i32)
        requires
            old(self).wf(),
        ensures
            final(self).wf(),
            final(self)@ == delete_rows(old(self)@, problem_id as int),
            final(self).next_key() == old(self).next_key(),
    {
        match self.find(problem_id) {
            Some(i) => {
                let ghost rows = self@;
                assert(has_id(rows, problem_id as int));
                assert(index_of(rows, problem_id as int) == i as int);
                self.rows.remove(i);
                assert(self@ =~= rows.remove(i as int));
            },
            None => {},
        }
    }

    /// All rows, in the table's order.
    pub fn get_all_problems(&self) -> (r: Vec<Problem>)
        requires
            self.wf(),
        ensures
            r@.map_values(|p: Problem| p@) == self@,
    {
        let mut out: Vec<Problem> = Vec::new();
        let mut i: usize = 0;
        while i < self.rows.len()
            invariant
                i <= self.rows@.len(),
                out@.len() == i,
                forall|j: int| 0 <= j < i ==> #[trigger] out@[j]@ == self@[j],
            decreases self.rows@.len() - i,
        {
            let p = &self.rows[i];
            out.push(
                Problem {
                    id: p.id,
                    problem_id: p.problem_id,
                    url: p.url.clone(),
                    name: p.name.clone(),
                },
            );
            i = i + 1;
        }
        assert(out@.map_values(|p: Problem| p@) =~= self@);
        out
    }
}

/// An upsert writes problem `pid`'s row and leaves every other problem's row as it was;
/// the row count grows by one exactly when `pid` had no row. Problems stay unique.
pub proof fn lemma_upsert_entry(
    rows: Seq<RecordView>,
    key: int,
    pid: int,
    name: Seq<char>,
    url: Seq<char>,
    other: int,
)
    requires
        ids_unique(rows),
    ensures
        ids_unique(upsert_rows(rows, key, pid, name, url)),
        entry(upsert_rows(rows, key, pid, name, url), pid) matches Some(r) && r.name == name
            && r.url == url,
        other != pid ==> entry(upsert_rows(rows, key, pid, name, url), other) == entry(
            rows,
            other,
        ),
        upsert_rows(rows, key, pid, name, url).len() == if has_id(rows, pid) {
            rows.len()
        } else {
            rows.len() + 1
        },
{
    let up = upsert_rows(rows, key, pid, name, url);
    let k = if has_id(rows, pid) {
        index_of(rows, pid)
    } else {
        rows.len() as int
    };
    assert(up[k].problem_id == pid);
    assert(forall|i: int| 0 <= i < up.len() && i != k ==> #[trigger] up[i] == rows[i]);
    assert(ids_unique(up));
    assert(has_id(up, pid));
    assert(index_of(up, pid) == k);
    if other != pid {
        if has_id(rows, other) {
            let j = index_of(rows, other);
            assert(up[j] == rows[j]);
            assert(has_id(up, other));
            assert(index_of(up, other) == j);
        } else {
            assert(!has_id(up, other));
        }
    }
}

/// A delete takes out problem `pid`'s row and leaves every other problem's row as it
/// was; deleting again changes nothing. Problems stay unique.
pub proof fn lemma_delete_entry(rows: Seq<RecordView>, pid: int, other: int)
    requires
        ids_unique(rows),
    ensures
        ids_unique(delete_rows(rows, pid)),
        entry(delete_rows(rows, pid), pid) is None,
        other != pid ==> entry(delete_rows(rows, pid), other) == entry(rows, other),
        delete_rows(delete_rows(rows, pid), pid) == delete_rows(rows, pid),
{
    let del = delete_rows(rows, pid);
    if has_id(rows, pid) {
        let k = index_of(rows, pid);
        assert(forall|i: int| 0 <= i < del.len() ==> #[trigger] del[i] == rows[if i < k {
            i
        } else {
            i + 1
        }]);
        assert(ids_unique(del));
        assert(!has_id(del, pid));
        if other != pid && has_id(rows, other) {
            let j = index_of(rows, other);
            let jd = if j < k {
                j
            } else {
                j - 1
            };
            assert(del[jd] == rows[j]);
            assert(has_id(del, other));
            assert(index_of(del, other) == jd);
        }
        if other != pid && !has_id(rows, other) {
            assert(!has_id(del, other));
        }
    }
}

/// Saving one problem twice leaves one row for it, holding what the second save wrote,
/// and no more rows than the first save left.
pub proof fn lemma_upsert_same_id_twice(
    rows: Seq<RecordView>,
    key1: int,
    key2: int,
    pid: int,
    name1: Seq<char>,
    url1: Seq<char>,
    name2: Seq<char>,
    url2: Seq<char>,
)
    requires
        ids_unique(rows),
    ensures
        ({
            let once = upsert_rows(rows, key1, pid, name1, url1);
            let twice = upsert_rows(once, key2, pid, name2, url2);
            &&& twice.len() == once.len()
            &&& ids_unique(twice)
            &&& entry(twice, pid) matches Some(r) && r.name == name2 && r.url == url2
        }),
{
    let once = upsert_rows(rows, key1, pid, name1, url1);
    lemma_upsert_entry(rows, key1, pid, name1, url1, pid);
    lemma_upsert_entry(once, key2, pid, name2, url2, pid);
}

/// Saving two different problems gives each its own row with its own fields; where
/// neither had a row, there are two rows more.
pub proof fn lemma_upsert_distinct_ids(
    rows: Seq<RecordView>,
    key1: int,
    key2: int,
    pid1: int,
    name1: Seq<char>,
    url1: Seq<char>,
    pid2: int,
    name2: Seq<char>,
    url2: Seq<char>,
)
    requires
        ids_unique(rows),
        pid1 != pid2,
    ensures
        ({
            let both = upsert_rows(upsert_rows(rows, key1, pid1, name1, url1), key2, pid2, name2, url2);
            &&& ids_unique(both)
            &&& entry(both, pid1) matches Some(r) && r.name == name1 && r.url == url1
            &&& entry(both, pid2) matches Some(r) && r.name == name2 && r.url == url2
            &&& !has_id(rows, pid1) && !has_id(rows, pid2) ==> both.len() == rows.len() + 2
        }),
{
    let once = upsert_rows(rows, key1, pid1, name1, url1);
    lemma_upsert_entry(rows, key1, pid1, name1, url1, pid2);
    lemma_upsert_entry(once, key2, pid2, name2, url2, pid1);
}

/// Deleting problem `pid` takes out its row alone: afterwards it has none, every other
/// problem keeps its row, and a second delete is a no-op.
pub proof fn lemma_delete_removes_only(rows: Seq<RecordView>, pid: int)
    requires
        ids_unique(rows),
    ensures
        entry(delete_rows(rows, pid), pid) is None,
        forall|q: int| q != pid ==> #[trigger] entry(delete_rows(rows, pid), q) == entry(rows, q),
        delete_rows(delete_rows(rows, pid), pid) == delete_rows(rows, pid),
{
    assert forall|q: int| q != pid implies #[trigger] entry(delete_rows(rows, pid), q) == entry(rows, q) by {
        lemma_delete_entry(rows, pid, q);
    }
    lemma_delete_entry(rows, pid, pid);
}

} // verus!
