//! JSON-compatible cell values and keyed records.
//!
//! A fetched row is materialized as a [`Record`]: a mapping from column name
//! to cell value with unique keys, where inserting under an existing name
//! overwrites its value (duplicate column names overwrite).

use vstd::prelude::*;
use vstd::pervasive::VecAdditionalExecFns;

verus! {

/// One JSON-compatible cell value.
///
/// A floating-point cell carries the IEEE 754 bit pattern of its 64-bit
/// value, so that the record itself is plain data; the serialization layer
/// turns the bits back into a JSON number. `Null` is the database NULL,
/// rendered as JSON null.
#[derive(PartialEq, Debug)]
pub enum CellValue {
    Null,
    Float(u64),
    Int(i64),
    Text(String),
}

/// The mathematical value of one cell.
pub ghost enum CellModel {
    Null,
    Float(u64),
    Int(i64),
    Text(Seq<char>),
}

impl View for CellValue {
    type V = CellModel;

    open spec fn view(&self) -> CellModel {
        match self {
            CellValue::Null => CellModel::Null,
            CellValue::Float(bits) => CellModel::Float(*bits),
            CellValue::Int(n) => CellModel::Int(*n),
            CellValue::Text(s) => CellModel::Text(s@),
        }
    }
}

impl DeepView for CellValue {
    type V = CellModel;

    open spec fn deep_view(&self) -> CellModel {
        self.view()
    }
}

/// The mathematical value of a record: its entries, in insertion order.
pub type RecordModel = Seq<(Seq<char>, CellModel)>;

/// Whether some entry of `r` has key `k`.
pub open spec fn record_has_key(r: RecordModel, k: Seq<char>) -> bool {
    exists|i: int| 0 <= i < r.len() && r[i].0 == k
}

/// No two entries share a key.
pub open spec fn record_keys_unique(r: RecordModel) -> bool {
    forall|i: int, j: int| 0 <= i < j < r.len() ==> r[i].0 != r[j].0
}

/// Insertion into a record: a fresh key is appended, an existing key keeps
/// its position and takes the new value.
pub open spec fn record_upsert(r: RecordModel, k: Seq<char>, v: CellModel) -> RecordModel {
    if record_has_key(r, k) {
        let i = choose|i: int| 0 <= i < r.len() && r[i].0 == k;
        r.update(i, (k, v))
    } else {
        r.push((k, v))
    }
}

/// A keyed record built from one fetched row: column name to cell value.
///
/// The entries are kept in insertion order and the keys are unique; both are
/// maintained by [`Record::insert`], the only way the record grows.
#[derive(PartialEq, Debug)]
pub struct Record {
    pub entries: Vec<(String, CellValue)>,
}

impl View for Record {
    type V = RecordModel;

    open spec fn view(&self) -> RecordModel {
        self.entries.deep_view()
    }
}

impl DeepView for Record {
    type V = RecordModel;

    open spec fn deep_view(&self) -> RecordModel {
        self.view()
    }
}

impl Record {
    /// Keys are unique.
    pub open spec fn wf(self) -> bool {
        record_keys_unique(self@)
    }

    /// The empty record.
    pub fn new() -> (r: Record)
        ensures
            r.wf(),
            r@ == Seq::<(Seq<char>, CellModel)>::empty(),
    {
        let r = Record { entries: Vec::new() };
        proof {
            assert(r@ =~= Seq::<(Seq<char>, CellModel)>::empty());
        }
        r
    }

    /// Insert a value under a column name; an existing name keeps its
    /// position and takes the new value, a fresh name is appended.
    pub fn insert(&mut self, name: String, v: CellValue)
        requires
            old(self).wf(),
        ensures
            final(self).wf(),
            final(self)@ == record_upsert(old(self)@, name@, v@),
    {
        let n = self.entries.len();
        let mut i: usize = 0;
        while i < n
            invariant
                old(self).wf(),
                *self == *old(self),
                n == self.entries.len(),
                i <= n,
                forall|j: int| 0 <= j < i ==> self@[j].0 != name@,
            decreases n - i,
        {
            let hit = self.entries[i].0 == name;
            proof {
                assert(self@[i as int].0 == self.entries@[i as int].0@);
            }
            if hit {
                self.entries.set(i, (name, v));
                proof {
                    let pre = old(self)@;
                    let pos = i as int;
                    assert(pre[pos].0 == name@);
                    assert(record_has_key(pre, name@));
                    let w = choose|w: int| 0 <= w < pre.len() && pre[w].0 == name@;
                    assert(record_keys_unique(pre));
                    if w < pos {
                        assert(pre[w].0 != pre[pos].0);
                    }
                    if pos < w {
                        assert(pre[pos].0 != pre[w].0);
                    }
                    assert(w == pos);
                    assert(self@ =~= pre.update(pos, (name@, v@)));
                    assert(self@ == record_upsert(pre, name@, v@));
                    assert forall|a: int, b: int|
                        0 <= a < b < self@.len() implies self@[a].0 != self@[b].0 by {
                        assert(pre[a].0 != pre[b].0);
                        assert(self@[a].0 == pre[a].0);
                        assert(self@[b].0 == pre[b].0);
                    }
                    assert(record_keys_unique(self@));
                }
                return;
            }
            i += 1;
        }
        self.entries.push((name, v));
        proof {
            let pre = old(self)@;
            assert(forall|j: int| 0 <= j < pre.len() ==> pre[j].0 != name@);
            assert(!record_has_key(pre, name@));
            assert(self@ =~= pre.push((name@, v@)));
            assert(self@ == record_upsert(pre, name@, v@));
            assert(record_keys_unique(self@));
        }
    }
}

} // verus!
