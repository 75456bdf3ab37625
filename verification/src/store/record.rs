//! The records that the store keeps, seen alike: each has an identifier and
//! is kept as the text of one JSON object.

use crate::codec::DecodeError;
use crate::exec::job::{Job, JobView};
use crate::exec::job_type::{JobType, JobTypeView};
use crate::exec::node::{Node, NodeView};
use crate::exec::node_type::{NodeType, NodeTypeView};
use crate::ident::{hyphenated_text, Uuid};
use crate::json::{items_view, json_text, lemma_array_view, parsed_json, Json, JsonView};
use crate::scheduler::{ScheduleItem, ScheduleItemView};
use crate::store::server::{lines_view, pairs_of};
use crate::store::{ErrorKind, StoreError};
use vstd::prelude::*;

verus! {

/// A record of the store.
pub trait Record: View + Sized {
    /// The record that a JSON value stands for, if it stands for one.
    spec fn shape(value: JsonView) -> Option<Self::V>;

    /// The JSON value that stands for a record.
    spec fn written(record: Self::V) -> JsonView;

    /// The identifier of a record.
    spec fn id_of(record: Self::V) -> Uuid;

    /// Reads a record from the text under which one is kept.
    fn read(text: &str) -> (r: Result<Self, DecodeError>)
        ensures
            match parsed_json(text@) {
                Err(message) => r matches Err(error) && error.message() == Some(message),
                Ok(value) => match Self::shape(value) {
                    Some(wanted) => r matches Ok(record) && record@ == wanted,
                    None => r matches Err(error) && error.message() is None,
                },
            },
    ;

    /// The text under which the record is kept.
    fn write(&self) -> (text: String)
        ensures
            text@ == json_text(Self::written(self@)),
    ;

    /// The JSON value that stands for the record.
    fn json(&self) -> (value: Json)
        ensures
            value@ == Self::written(self@),
    ;

    /// The identifier of the record.
    fn id(&self) -> (id: Uuid)
        ensures
            id == Self::id_of(self@),
    ;
}

/// The JSON array of a list of records.
pub open spec fn written_list<R: Record>(list: Seq<R::V>) -> JsonView {
    JsonView::Array(Seq::new(list.len(), |i: int| R::written(list[i])))
}

/// Writes a list of records as a JSON array.
pub fn list_json<R: Record>(list: &Vec<R>) -> (value: Json)
    ensures
        value@ == written_list::<R>(views(list@)),
{
    let mut items: Vec<Json> = Vec::new();
    let mut i: usize = 0;
    while i < list.len()
        invariant
            i <= list.len(),
            items.len() == i,
            forall|k: int| 0 <= k < i ==> (#[trigger] items[k])@ == R::written(list[k]@),
        decreases list.len() - i,
    {
        items.push(list[i].json());
        i += 1;
    }
    proof {
        lemma_array_view(items);
        assert(items_view(items@) =~= Seq::new(
            list.len() as nat,
            |i: int| R::written(views(list@)[i]),
        ));
    }
    Json::Array(items)
}

/// What reading a text as a record gives.
pub open spec fn decoded<R: Record>(text: Seq<char>) -> Result<R::V, ErrorKind> {
    match parsed_json(text) {
        Err(message) => Err(ErrorKind::Syntax(message)),
        Ok(value) => match R::shape(value) {
            Some(record) => Ok(record),
            None => Err(ErrorKind::Shape),
        },
    }
}

/// What reading the text under a hash field gives: the record, if the field
/// spells the identifier of the record.
pub open spec fn checked<R: Record>(field: Seq<char>, text: Seq<char>) -> Result<R::V, ErrorKind> {
    match decoded::<R>(text) {
        Err(kind) => Err(kind),
        Ok(record) => if hyphenated_text(R::id_of(record).value) == field {
            Ok(record)
        } else {
            Err(ErrorKind::Consistency)
        },
    }
}

/// What reading a listing of a hash gives: the records in the order of the
/// listing, or the failure of the first pair that cannot be read.
pub open spec fn records<R: Record>(pairs: Seq<(Seq<char>, Seq<char>)>) -> Result<
    Seq<R::V>,
    ErrorKind,
>
    decreases pairs.len(),
{
    if pairs.len() == 0 {
        Ok(Seq::empty())
    } else {
        match records::<R>(pairs.drop_last()) {
            Err(kind) => Err(kind),
            Ok(before) => match checked::<R>(pairs.last().0, pairs.last().1) {
                Err(kind) => Err(kind),
                Ok(record) => Ok(before.push(record)),
            },
        }
    }
}

/// What reading the texts of a list gives: the records in the order of the
/// list, or the failure of the first text that cannot be read.
pub open spec fn records_of_texts<R: Record>(texts: Seq<Seq<char>>) -> Result<Seq<R::V>, ErrorKind>
    decreases texts.len(),
{
    if texts.len() == 0 {
        Ok(Seq::empty())
    } else {
        match records_of_texts::<R>(texts.drop_last()) {
            Err(kind) => Err(kind),
            Ok(before) => match decoded::<R>(texts.last()) {
                Err(kind) => Err(kind),
                Ok(record) => Ok(before.push(record)),
            },
        }
    }
}

/// A list of records, each by its value.
pub open spec fn views<R: Record>(list: Seq<R>) -> Seq<R::V> {
    Seq::new(list.len(), |i: int| list[i]@)
}

/// Whether an outcome is the one wanted.
pub open spec fn agrees<R: Record>(
    r: Result<R, StoreError>,
    wanted: Result<R::V, ErrorKind>,
) -> bool {
    match wanted {
        Ok(record) => r matches Ok(found) && found@ == record,
        Err(kind) => r matches Err(error) && error.kind() == kind,
    }
}

/// Whether an outcome that is a list of records is the one wanted.
pub open spec fn agrees_all<R: Record>(
    r: Result<Vec<R>, StoreError>,
    wanted: Result<Seq<R::V>, ErrorKind>,
) -> bool {
    match wanted {
        Ok(list) => r matches Ok(found) && views(found@) == list,
        Err(kind) => r matches Err(error) && error.kind() == kind,
    }
}

proof fn lemma_records_fail<R: Record>(pairs: Seq<(Seq<char>, Seq<char>)>, n: int)
    requires
        0 <= n <= pairs.len(),
        records::<R>(pairs.subrange(0, n)) is Err,
    ensures
        records::<R>(pairs) == records::<R>(pairs.subrange(0, n)),
    decreases pairs.len() - n,
{
    if n < pairs.len() {
        let longer = pairs.subrange(0, n + 1);
        assert(longer.drop_last() =~= pairs.subrange(0, n));
        lemma_records_fail::<R>(pairs, n + 1);
    } else {
        assert(pairs.subrange(0, n) =~= pairs);
    }
}

proof fn lemma_records_of_texts_fail<R: Record>(texts: Seq<Seq<char>>, n: int)
    requires
        0 <= n <= texts.len(),
        records_of_texts::<R>(texts.subrange(0, n)) is Err,
    ensures
        records_of_texts::<R>(texts) == records_of_texts::<R>(texts.subrange(0, n)),
    decreases texts.len() - n,
{
    if n < texts.len() {
        let longer = texts.subrange(0, n + 1);
        assert(longer.drop_last() =~= texts.subrange(0, n));
        lemma_records_of_texts_fail::<R>(texts, n + 1);
    } else {
        assert(texts.subrange(0, n) =~= texts);
    }
}

/// A listing that can be read gives one record for each of its pairs, and
/// each record is what the pair reads as.
pub proof fn lemma_records_each<R: Record>(pairs: Seq<(Seq<char>, Seq<char>)>)
    requires
        records::<R>(pairs) is Ok,
    ensures
        records::<R>(pairs)->Ok_0.len() == pairs.len(),
        forall|i: int|
            0 <= i < pairs.len() ==> checked::<R>((#[trigger] pairs[i]).0, pairs[i].1) == Ok::<
                R::V,
                ErrorKind,
            >(records::<R>(pairs)->Ok_0[i]),
    decreases pairs.len(),
{
    if pairs.len() > 0 {
        let before = pairs.drop_last();
        lemma_records_each::<R>(before);
        let list = records::<R>(pairs)->Ok_0;
        assert forall|i: int| 0 <= i < pairs.len() implies checked::<R>(
            (#[trigger] pairs[i]).0,
            pairs[i].1,
        ) == Ok::<R::V, ErrorKind>(list[i]) by {
            if i < before.len() {
                assert(before[i] == pairs[i]);
            }
        }
    }
}

/// Reading a listing never fails the way the server does.
pub proof fn lemma_records_kind<R: Record>(pairs: Seq<(Seq<char>, Seq<char>)>)
    ensures
        records::<R>(pairs) matches Err(kind) ==> !(kind is Server),
    decreases pairs.len(),
{
    if pairs.len() > 0 {
        lemma_records_kind::<R>(pairs.drop_last());
    }
}

/// Reading a list of texts never fails the way the server does.
pub proof fn lemma_records_of_texts_kind<R: Record>(texts: Seq<Seq<char>>)
    ensures
        records_of_texts::<R>(texts) matches Err(kind) ==> !(kind is Server),
    decreases texts.len(),
{
    if texts.len() > 0 {
        lemma_records_of_texts_kind::<R>(texts.drop_last());
    }
}

/// Reads a record.
pub fn read_record<R: Record>(text: &str) -> (r: Result<R, StoreError>)
    ensures
        agrees(r, decoded::<R>(text@)),
{
    match R::read(text) {
        Ok(record) => Ok(record),
        Err(error) => Err(StoreError::Decode(error)),
    }
}

/// Reads the record under a hash field, and checks that the field spells
/// its identifier.
pub fn read_checked<R: Record>(field: &String, text: &str) -> (r: Result<R, StoreError>)
    ensures
        agrees(r, checked::<R>(field@, text@)),
{
    let record = read_record::<R>(text)?;
    let id = record.id();
    if id.hyphenated() == *field {
        Ok(record)
    } else {
        Err(StoreError::Consistency { field: field.clone(), found: id })
    }
}

/// Reads the records of a listing: field, text, field, text and so on.
pub fn read_listing<R: Record>(flat: &Vec<String>) -> (r: Result<Vec<R>, StoreError>)
    ensures
        agrees_all(r, records::<R>(pairs_of(lines_view(flat@)))),
{
    let ghost pairs = pairs_of(lines_view(flat@));
    let count = flat.len() / 2;
    let mut list: Vec<R> = Vec::new();
    let mut i: usize = 0;
    proof {
        assert(pairs.subrange(0, 0) =~= Seq::empty());
        assert(views(list@) =~= Seq::empty());
    }
    while i < count
        invariant
            i <= count,
            count == flat.len() / 2,
            pairs == pairs_of(lines_view(flat@)),
            records::<R>(pairs.subrange(0, i as int)) == Ok::<Seq<R::V>, ErrorKind>(views(list@)),
        decreases count - i,
    {
        let ghost before = views(list@);
        proof {
            let upto = pairs.subrange(0, i + 1);
            assert(upto.drop_last() =~= pairs.subrange(0, i as int));
            assert(upto.last() == pairs[i as int]);
            assert(pairs[i as int] == (flat[2 * i]@, flat[2 * i + 1]@));
        }
        match read_checked::<R>(&flat[2 * i], flat[2 * i + 1].as_str()) {
            Err(error) => {
                proof {
                    lemma_records_fail::<R>(pairs, i + 1);
                }
                return Err(error);
            },
            Ok(record) => {
                list.push(record);
                proof {
                    assert(views(list@) =~= before.push(record@));
                }
            },
        }
        i += 1;
    }
    proof {
        assert(pairs.subrange(0, count as int) =~= pairs);
    }
    Ok(list)
}

/// Reads the records of a list of texts.
pub fn read_texts<R: Record>(texts: &Vec<String>) -> (r: Result<Vec<R>, StoreError>)
    ensures
        agrees_all(r, records_of_texts::<R>(lines_view(texts@))),
{
    let ghost all = lines_view(texts@);
    let mut list: Vec<R> = Vec::new();
    let mut i: usize = 0;
    proof {
        assert(all.subrange(0, 0) =~= Seq::empty());
        assert(views(list@) =~= Seq::empty());
    }
    while i < texts.len()
        invariant
            i <= texts.len(),
            all == lines_view(texts@),
            records_of_texts::<R>(all.subrange(0, i as int)) == Ok::<Seq<R::V>, ErrorKind>(
                views(list@),
            ),
        decreases texts.len() - i,
    {
        let ghost before = views(list@);
        proof {
            let upto = all.subrange(0, i + 1);
            assert(upto.drop_last() =~= all.subrange(0, i as int));
            assert(upto.last() == all[i as int]);
        }
        match read_record::<R>(texts[i].as_str()) {
            Err(error) => {
                proof {
                    lemma_records_of_texts_fail::<R>(all, i + 1);
                }
                return Err(error);
            },
            Ok(record) => {
                list.push(record);
                proof {
                    assert(views(list@) =~= before.push(record@));
                }
            },
        }
        i += 1;
    }
    proof {
        assert(all.subrange(0, texts.len() as int) =~= all);
    }
    Ok(list)
}

impl Record for NodeType {
    open spec fn shape(value: JsonView) -> Option<NodeTypeView> {
        NodeTypeView::of_json(value)
    }

    open spec fn written(record: NodeTypeView) -> JsonView {
        record.json()
    }

    open spec fn id_of(record: NodeTypeView) -> Uuid {
        record.uuid
    }

    fn read(text: &str) -> (r: Result<NodeType, DecodeError>) {
        NodeType::from_text(text)
    }

    fn write(&self) -> (text: String) {
        self.to_text()
    }

    fn json(&self) -> (value: Json) {
        self.to_json()
    }

    fn id(&self) -> (id: Uuid) {
        self.uuid
    }
}

impl Record for Node {
    open spec fn shape(value: JsonView) -> Option<NodeView> {
        NodeView::of_json(value)
    }

    open spec fn written(record: NodeView) -> JsonView {
        record.json()
    }

    open spec fn id_of(record: NodeView) -> Uuid {
        record.uuid
    }

    fn read(text: &str) -> (r: Result<Node, DecodeError>) {
        Node::from_text(text)
    }

    fn write(&self) -> (text: String) {
        self.to_text()
    }

    fn json(&self) -> (value: Json) {
        self.to_json()
    }

    fn id(&self) -> (id: Uuid) {
        self.uuid
    }
}

impl Record for JobType {
    open spec fn shape(value: JsonView) -> Option<JobTypeView> {
        JobTypeView::of_json(value)
    }

    open spec fn written(record: JobTypeView) -> JsonView {
        record.json()
    }

    open spec fn id_of(record: JobTypeView) -> Uuid {
        record.uuid
    }

    fn read(text: &str) -> (r: Result<JobType, DecodeError>) {
        JobType::from_text(text)
    }

    fn write(&self) -> (text: String) {
        self.to_text()
    }

    fn json(&self) -> (value: Json) {
        self.to_json()
    }

    fn id(&self) -> (id: Uuid) {
        self.uuid
    }
}

impl Record for Job {
    open spec fn shape(value: JsonView) -> Option<JobView> {
        JobView::of_json(value)
    }

    open spec fn written(record: JobView) -> JsonView {
        record.json()
    }

    open spec fn id_of(record: JobView) -> Uuid {
        record.uuid
    }

    fn read(text: &str) -> (r: Result<Job, DecodeError>) {
        Job::from_text(text)
    }

    fn write(&self) -> (text: String) {
        self.to_text()
    }

    fn json(&self) -> (value: Json) {
        self.to_json()
    }

    fn id(&self) -> (id: Uuid) {
        self.uuid
    }
}

impl Record for ScheduleItem {
    open spec fn shape(value: JsonView) -> Option<ScheduleItemView> {
        ScheduleItemView::of_json(value)
    }

    open spec fn written(record: ScheduleItemView) -> JsonView {
        record.json()
    }

    open spec fn id_of(record: ScheduleItemView) -> Uuid {
        record.uuid
    }

    fn read(text: &str) -> (r: Result<ScheduleItem, DecodeError>) {
        ScheduleItem::from_text(text)
    }

    fn write(&self) -> (text: String) {
        self.to_text()
    }

    fn json(&self) -> (value: Json) {
        self.to_json()
    }

    fn id(&self) -> (id: Uuid) {
        self.uuid
    }
}

} // verus!
