//! The unit of storage and the model of the table that holds it.
use vstd::arithmetic::power::pow;
use vstd::prelude::*;

verus! {

/// A row of the gateway's table: a 128-bit identifier (the primary key),
/// a text name and a signed 64-bit value.
pub struct Record {
    pub id: u128,
    pub name: String,
    pub value: i64,
}

/// The mathematical content of a [`Record`].
pub struct RecordView {
    pub id: u128,
    pub name: Seq<char>,
    pub value: i64,
}

impl View for Record {
    type V = RecordView;

    open spec fn view(&self) -> RecordView {
        RecordView { id: self.id, name: self.name@, value: self.value }
    }
}

/// The lower-case hexadecimal digits.
pub open spec fn hex_digits() -> Seq<char> {
    seq!['0', '1', '2', '3', '4', '5', '6', '7', '8', '9', 'a', 'b', 'c', 'd', 'e', 'f']
}

/// The `k`-th of the 32 hexadecimal digits of `id`, most significant first.
pub open spec fn nibble(id: u128, k: int) -> int {
    (id as int / pow(16, (31 - k) as nat)) % 16
}

/// Which of the 32 digits stands at position `p` of the 36-character text.
pub open spec fn digit_at(p: int) -> int {
    if p < 8 {
        p
    } else if p < 13 {
        p - 1
    } else if p < 18 {
        p - 2
    } else if p < 23 {
        p - 3
    } else {
        p - 4
    }
}

/// The hyphenated text of a 128-bit identifier: 32 lower-case hexadecimal
/// digits, most significant first, grouped 8-4-4-4-12.
pub open spec fn uuid_text(id: u128) -> Seq<char> {
    Seq::new(
        36,
        |p: int|
            if p == 8 || p == 13 || p == 18 || p == 23 {
                '-'
            } else {
                hex_digits()[nibble(id, digit_at(p))]
            },
    )
}

/// Relies on `uuid::Uuid::from_u128`, which takes the integer's bytes in
/// big-endian order, and on the `Display` of `uuid::Uuid`, which writes them
/// as hyphenated lower-case hexadecimal.
#[verifier::external_body]
fn hyphenated(id: u128) -> (r: String)
    ensures
        r@ == uuid_text(id),
{
    uuid::Uuid::from_u128(id).to_string()
}

/// The values bound to the three placeholders of the insert statement,
/// in column order `(id, name, value)`.
pub type BoundRow = (u128, String, i64);

pub open spec fn row_view(row: BoundRow) -> RecordView {
    RecordView { id: row.0, name: row.1@, value: row.2 }
}

impl Record {
    pub fn new(id: u128, name: String, value: i64) -> (r: Record)
        ensures
            r.id == id,
            r.name@ == name@,
            r.value == value,
    {
        Record { id, name, value }
    }

    /// The record's identifier in its hyphenated text form.
    pub fn id_text(&self) -> (r: String)
        ensures
            r@ == uuid_text(self.id),
    {
        hyphenated(self.id)
    }

    /// The record's fields as the bound values of one insert.
    pub fn bound_values(&self) -> (r: BoundRow)
        ensures
            row_view(r) == self@,
    {
        (self.id, self.name.clone(), self.value)
    }
}

/// What the table holds: for each primary key, the name and value of the
/// write that was applied last.
pub type TableModel = Map<u128, (Seq<char>, i64)>;

/// The table after one upsert.
pub open spec fn upsert(t: TableModel, r: RecordView) -> TableModel {
    t.insert(r.id, (r.name, r.value))
}

/// The table after a sequence of upserts, applied in order.
pub open spec fn apply_writes(t: TableModel, rs: Seq<RecordView>) -> TableModel
    decreases rs.len(),
{
    if rs.len() == 0 {
        t
    } else {
        apply_writes(upsert(t, rs[0]), rs.drop_first())
    }
}

/// What a read of key `id` finds in the table.
pub open spec fn read_back(t: TableModel, id: u128) -> Option<RecordView> {
    if t.contains_key(id) {
        Some(RecordView { id, name: t[id].0, value: t[id].1 })
    } else {
        None
    }
}

/// Writing a record and then reading its key yields the record itself.
pub proof fn law_write_then_read(t: TableModel, r: RecordView)
    ensures
        read_back(apply_writes(t, seq![r]), r.id) == Some(r),
{
    let none = Seq::<RecordView>::empty();
    assert(seq![r].drop_first() =~= none);
    assert(apply_writes(t, seq![r]) == apply_writes(upsert(t, r), none));
    assert(apply_writes(upsert(t, r), none) == upsert(t, r));
}

/// Two writes to the same key leave only the later one visible: the table
/// is the same as if the first had never been made.
pub proof fn law_last_write_wins(t: TableModel, a: RecordView, b: RecordView)
    requires
        a.id == b.id,
    ensures
        apply_writes(t, seq![a, b]) == apply_writes(t, seq![b]),
        read_back(apply_writes(t, seq![a, b]), a.id) == Some(b),
{
    let none = Seq::<RecordView>::empty();
    assert(seq![a, b].drop_first() =~= seq![b]);
    assert(seq![b].drop_first() =~= none);
    assert(upsert(upsert(t, a), b) =~= upsert(t, b));
    assert(apply_writes(upsert(upsert(t, a), b), none) == upsert(t, b));
    assert(apply_writes(upsert(t, a), seq![b]) == upsert(t, b));
    assert(apply_writes(t, seq![b]) == apply_writes(upsert(t, b), none));
}

/// An empty sequence of writes leaves the table unchanged.
pub proof fn law_empty_writes_change_nothing(t: TableModel)
    ensures
        apply_writes(t, Seq::<RecordView>::empty()) == t,
{
}

/// After a sequence of writes, each key written holds the record of its last
/// write, and every other key holds what it held before.
pub proof fn law_writes_visible(t: TableModel, rs: Seq<RecordView>)
    ensures
        forall|i: int|
            0 <= i < rs.len() && (forall|j: int| i < j < rs.len() ==> rs[j].id != rs[i].id)
                ==> #[trigger] read_back(apply_writes(t, rs), rs[i].id) == Some(rs[i]),
        forall|k: u128|
            (forall|j: int| 0 <= j < rs.len() ==> rs[j].id != k)
                ==> #[trigger] read_back(apply_writes(t, rs), k) == read_back(t, k),
    decreases rs.len(),
{
    if rs.len() > 0 {
        let t1 = upsert(t, rs[0]);
        let tail = rs.drop_first();
        law_writes_visible(t1, tail);
        assert forall|i: int|
            0 <= i < rs.len() && (forall|j: int| i < j < rs.len() ==> rs[j].id != rs[i].id)
                implies #[trigger] read_back(apply_writes(t, rs), rs[i].id) == Some(rs[i]) by {
            if i > 0 {
                assert(tail[i - 1] == rs[i]);
                assert forall|j: int| i - 1 < j < tail.len() implies #[trigger] tail[j].id != tail[i - 1].id by {
                    assert(tail[j] == rs[j + 1]);
                }
            } else {
                assert forall|j: int| 0 <= j < tail.len() implies tail[j].id != rs[0].id by {
                    assert(tail[j] == rs[j + 1]);
                }
                assert(read_back(t1, rs[0].id) == Some(rs[0]));
            }
        }
        assert forall|k: u128|
            (forall|j: int| 0 <= j < rs.len() ==> rs[j].id != k)
                implies #[trigger] read_back(apply_writes(t, rs), k) == read_back(t, k) by {
            assert forall|j: int| 0 <= j < tail.len() implies tail[j].id != k by {
                assert(tail[j] == rs[j + 1]);
            }
            assert(rs[0].id != k);
            assert(read_back(t1, k) == read_back(t, k));
        }
    }
}

} // verus!
