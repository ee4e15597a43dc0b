//! AddPartitionsToTxn (API key 24).

use crate::buffer::Octets;
use crate::error::{ErrorCode, KrafkaError, ProtocolErrorKind, Reason, Result};
use crate::protocol::api::ApiKey;
use crate::protocol::messages::{VersionedDecode, VersionedEncode};
use crate::protocol::wire::{
    decoded, encode_unsigned_varint, encoded, fits, group_appends, group_consumes, group_cut,
    group_followed, group_grows, no_items, read_array, read_error_code, read_i32,
    read_nullable_string, read_string, read_tags, result_view, views, write_array, write_bool,
    write_i16, write_i64, write_string, write_tags, Format, Reader, WireDecode, WireEncode, Writer,
};
use bytes::{Bytes, BytesMut};
use vstd::prelude::*;

verus! {

/// AddPartitionsToTxn request (API Key 24).
///
/// Adds partitions to an ongoing transaction.
#[derive(Debug, Clone)]
pub struct AddPartitionsToTxnRequest {
    /// Transactional ID.
    pub transactional_id: String,
    /// Producer ID.
    pub producer_id: i64,
    /// Producer epoch.
    pub producer_epoch: i16,
    /// Topics to add.
    pub topics: Vec<AddPartitionsToTxnTopic>,
}

/// Topic in AddPartitionsToTxn request.
#[derive(Debug, Clone)]
pub struct AddPartitionsToTxnTopic {
    /// Topic name.
    pub name: String,
    /// Partition indices.
    pub partitions: Vec<i32>,
}

/// What a [`AddPartitionsToTxnTopic`] holds.
pub struct AddPartitionsToTxnTopicView {
    /// Topic name.
    pub name: Seq<char>,
    /// Partition indices.
    pub partitions: Seq<i32>,
}

impl View for AddPartitionsToTxnTopic {
    type V = AddPartitionsToTxnTopicView;

    open spec fn view(&self) -> AddPartitionsToTxnTopicView {
        AddPartitionsToTxnTopicView {
            name: self.name@,
            partitions: views(self.partitions@),
        }
    }
}

impl WireEncode for AddPartitionsToTxnTopic {
    open spec fn written(&self, f: Format, w: Writer) -> Writer {
        let w = w.string(self.name@, f.flexible);
        let w = w.array(self.partitions@, f);
        w.tags(f.flexible)
    }

    proof fn lemma_grows(&self, f: Format, w: Writer) {
        broadcast use group_grows;

    }

    proof fn law_appends(&self, f: Format, w: Writer) {
        broadcast use group_appends;

    }

    fn encode_wire(&self, f: Format, buf: &mut BytesMut) -> (res: Result<()>) {
        broadcast use group_grows;

        write_string(self.name.as_str(), f.flexible, buf)?;
        write_array(&self.partitions, f, buf)?;
        write_tags(f.flexible, buf);
        Ok(())
    }
}

impl WireEncode for AddPartitionsToTxnRequest {
    /// From version 4 on the transaction stands in an array of transactions, with
    /// a byte that asks for more than verification.
    open spec fn written(&self, f: Format, w: Writer) -> Writer {
        let w = if f.version >= 4 {
            w.varint(2)
        } else {
            w
        };
        let w = w.string(self.transactional_id@, f.flexible);
        let w = w.i64(self.producer_id);
        let w = w.i16(self.producer_epoch);
        let w = if f.version >= 4 {
            w.bool(false)
        } else {
            w
        };
        let w = w.array(self.topics@, f);
        let w = w.tags(f.flexible);
        if f.version >= 4 {
            w.tags(f.flexible)
        } else {
            w
        }
    }

    proof fn lemma_grows(&self, f: Format, w: Writer) {
        broadcast use group_grows;

    }

    proof fn law_appends(&self, f: Format, w: Writer) {
        broadcast use group_appends;

    }

    fn encode_wire(&self, f: Format, buf: &mut BytesMut) -> (res: Result<()>) {
        broadcast use group_grows;

        if f.version >= 4 {
            encode_unsigned_varint(2, buf);
        }
        write_string(self.transactional_id.as_str(), f.flexible, buf)?;
        write_i64(self.producer_id, buf);
        write_i16(self.producer_epoch, buf);
        if f.version >= 4 {
            write_bool(false, buf);
        }
        write_array(&self.topics, f, buf)?;
        write_tags(f.flexible, buf);
        if f.version >= 4 {
            write_tags(f.flexible, buf);
        }
        Ok(())
    }
}

impl AddPartitionsToTxnRequest {
    /// Create a new request.
    pub fn new(transactional_id: &str, producer_id: i64, producer_epoch: i16) -> (r: Self)
        ensures
            r.transactional_id@ == transactional_id@,
            r.producer_id == producer_id,
            r.producer_epoch == producer_epoch,
            r.topics@.len() == 0,
    {
        AddPartitionsToTxnRequest {
            transactional_id: transactional_id.to_owned(),
            producer_id,
            producer_epoch,
            topics: Vec::new(),
        }
    }
}

/// The index of the first topic with a name, from `from` on, or the number of
/// topics where there is none.
pub open spec fn first_topic(
    topics: Seq<AddPartitionsToTxnTopicView>,
    name: Seq<char>,
    from: nat,
) -> nat
    decreases topics.len() - from,
{
    if from >= topics.len() {
        topics.len()
    } else if topics[from as int].name == name {
        from
    } else {
        first_topic(topics, name, from + 1)
    }
}

/// The topics with one more partition: in the first topic of that name, unless it
/// is there already, or in a new topic at the end.
pub open spec fn with_partition(
    topics: Seq<AddPartitionsToTxnTopicView>,
    name: Seq<char>,
    partition: i32,
) -> Seq<AddPartitionsToTxnTopicView> {
    let i = first_topic(topics, name, 0);
    if i >= topics.len() {
        topics.push(AddPartitionsToTxnTopicView { name, partitions: seq![partition] })
    } else {
        let topic = topics[i as int];
        if topic.partitions.contains(partition) {
            topics
        } else {
            topics.update(
                i as int,
                AddPartitionsToTxnTopicView {
                    name: topic.name,
                    partitions: topic.partitions.push(partition),
                },
            )
        }
    }
}

/// Whether no topic stands twice, nor a partition within a topic.
pub open spec fn without_repeats(topics: Seq<AddPartitionsToTxnTopicView>) -> bool {
    &&& forall|i: int, j: int|
        0 <= i < j < topics.len() ==> (#[trigger] topics[i]).name != (#[trigger] topics[j]).name
    &&& forall|i: int| 0 <= i < topics.len() ==> (#[trigger] topics[i]).partitions.no_duplicates()
}

/// Where the first topic of a name stands.
proof fn lemma_first_topic(topics: Seq<AddPartitionsToTxnTopicView>, name: Seq<char>, from: nat)
    requires
        from <= topics.len(),
    ensures
        ({
            let i = first_topic(topics, name, from);
            &&& from <= i <= topics.len()
            &&& i < topics.len() ==> topics[i as int].name == name
            &&& forall|k: int| from <= k < i ==> (#[trigger] topics[k]).name != name
        }),
    decreases topics.len() - from,
{
    if from < topics.len() && topics[from as int].name != name {
        lemma_first_topic(topics, name, from + 1);
    }
}

/// Adding a partition keeps topics and partitions free of repeats.
pub proof fn law_adding_keeps_partitions_distinct(
    topics: Seq<AddPartitionsToTxnTopicView>,
    name: Seq<char>,
    partition: i32,
)
    requires
        without_repeats(topics),
    ensures
        without_repeats(with_partition(topics, name, partition)),
{
    lemma_first_topic(topics, name, 0);
    let i = first_topic(topics, name, 0) as int;
    if i < topics.len() {
        assert(topics[i].partitions.no_duplicates());
    }
}

/// Adding a partition leaves every topic in its place with its name, and every
/// partition in its topic. The partition goes behind those of the first topic of its
/// name, unless it is there, or into a new topic behind the others.
pub proof fn law_adding_a_partition(
    topics: Seq<AddPartitionsToTxnTopicView>,
    name: Seq<char>,
    partition: i32,
    i: nat,
)
    requires
        i <= topics.len(),
        forall|k: int| 0 <= k < i ==> (#[trigger] topics[k]).name != name,
        i < topics.len() ==> topics[i as int].name == name,
    ensures
        ({
            let after = with_partition(topics, name, partition);
            &&& forall|k: int|
                0 <= k < topics.len() && k != i ==> #[trigger] after[k] == topics[k]
            &&& i == topics.len() ==> {
                &&& after.len() == topics.len() + 1
                &&& after.last().name == name
                &&& after.last().partitions == seq![partition]
            }
            &&& i < topics.len() ==> {
                &&& after.len() == topics.len()
                &&& after[i as int].name == name
                &&& after[i as int].partitions == (if topics[i as int].partitions.contains(
                    partition,
                ) {
                    topics[i as int].partitions
                } else {
                    topics[i as int].partitions.push(partition)
                })
            }
        }),
{
    lemma_first_topic(topics, name, 0);
    let found = first_topic(topics, name, 0);
    if found < i {
        assert(topics[found as int].name != name);
    }
    if i < found {
        assert(topics[i as int].name != name);
    }
}

/// A partition that was added is there, and adding it again changes nothing.
pub proof fn law_adding_a_partition_twice(
    topics: Seq<AddPartitionsToTxnTopicView>,
    name: Seq<char>,
    partition: i32,
)
    ensures
        ({
            let once = with_partition(topics, name, partition);
            let i = first_topic(once, name, 0);
            &&& i < once.len()
            &&& once[i as int].partitions.contains(partition)
            &&& with_partition(once, name, partition) == once
        }),
{
    let once = with_partition(topics, name, partition);
    lemma_first_topic(topics, name, 0);
    lemma_first_topic(once, name, 0);
    let i = first_topic(topics, name, 0) as int;
    assert(once[i].name == name);
    if i < topics.len() {
        if !topics[i].partitions.contains(partition) {
            assert(once[i].partitions.last() == partition);
        }
    } else {
        assert(once[i].partitions[0] == partition);
    }
    assert forall|k: int| 0 <= k < i implies (#[trigger] once[k]).name != name by {
        assert(topics[k].name != name);
    }
    assert(first_topic(once, name, 0) == i);
}

impl AddPartitionsToTxnRequest {
    /// Add a partition to a topic.
    pub fn add_partition(self, topic: &str, partition: i32) -> (r: Self)
        ensures
            r.transactional_id == self.transactional_id,
            r.producer_id == self.producer_id,
            r.producer_epoch == self.producer_epoch,
            views(r.topics@) == with_partition(views(self.topics@), topic@, partition),
    {
        let ghost before = views(self.topics@);
        let name = topic.to_owned();
        let mut topics = self.topics;
        let mut i: usize = 0;
        while i < topics.len()
            invariant
                i <= topics@.len(),
                name@ == topic@,
                views(topics@) == before,
                first_topic(before, topic@, 0) == first_topic(before, topic@, i as nat),
            ensures
                i <= topics@.len(),
                name@ == topic@,
                views(topics@) == before,
                first_topic(before, topic@, 0) == i,
            decreases topics@.len() - i,
        {
            assert(before[i as int] == topics@[i as int]@);
            if topics[i].name == name {
                break;
            }
            i = i + 1;
        }
        if i < topics.len() {
            let mut found = topics.remove(i);
            assert(before[i as int] == found@);
            assert(before[i as int].partitions =~= found.partitions@);
            let mut there: bool = false;
            let mut k: usize = 0;
            while k < found.partitions.len()
                invariant
                    k <= found.partitions@.len(),
                    there == found.partitions@.take(k as int).contains(partition),
                decreases found.partitions@.len() - k,
            {
                if found.partitions[k] == partition {
                    there = true;
                }
                assert(found.partitions@.take(k + 1) =~= found.partitions@.take(k as int).push(
                    found.partitions@[k as int],
                ));
                proof {
                    let front = found.partitions@.take(k as int);
                    let last = found.partitions@[k as int];
                    if front.contains(partition) {
                        let w = choose|w: int| 0 <= w < front.len() && front[w] == partition;
                        assert(front.push(last)[w] == partition);
                    }
                    if last == partition {
                        assert(front.push(last)[k as int] == partition);
                    }
                }
                k = k + 1;
            }
            assert(found.partitions@.take(k as int) =~= found.partitions@);
            if !there {
                found.partitions.push(partition);
            }
            assert(found@.partitions =~= found.partitions@);
            topics.insert(i, found);
        } else {
            let mut partitions: Vec<i32> = Vec::new();
            partitions.push(partition);
            let added = AddPartitionsToTxnTopic { name, partitions };
            assert(added@.partitions =~= seq![partition]);
            topics.push(added);
        }
        assert(views(topics@) =~= with_partition(before, topic@, partition));
        AddPartitionsToTxnRequest {
            transactional_id: self.transactional_id,
            producer_id: self.producer_id,
            producer_epoch: self.producer_epoch,
            topics,
        }
    }
}

impl AddPartitionsToTxnRequest {
    /// Encode as version 0-2.
    pub fn encode_v0(&self, buf: &mut BytesMut) -> (res: Result<()>)
        requires
            fits(self.written(Format::plain(0), Writer::at(old(buf)@))),
        ensures
            encoded(res, final(buf)@, self.written(Format::plain(0), Writer::at(old(buf)@))),
    {
        self.encode_wire(Format::plain(0), buf)
    }

    /// Encode for version 3 (flexible: compact strings, varint arrays, tagged fields).
    pub fn encode_v3(&self, buf: &mut BytesMut) -> (res: Result<()>)
        requires
            fits(self.written(Format::flexible(3), Writer::at(old(buf)@))),
        ensures
            encoded(res, final(buf)@, self.written(Format::flexible(3), Writer::at(old(buf)@))),
    {
        self.encode_wire(Format::flexible(3), buf)
    }

    /// Encode for version 4-5 (batched transactions, broker-compatible).
    ///
    /// v4+ wraps the transaction in a `Transactions` compact array with
    /// `VerifyOnly = false`. The client always sends a single transaction.
    pub fn encode_v4(&self, buf: &mut BytesMut) -> (res: Result<()>)
        requires
            fits(self.written(Format::flexible(4), Writer::at(old(buf)@))),
        ensures
            encoded(res, final(buf)@, self.written(Format::flexible(4), Writer::at(old(buf)@))),
    {
        self.encode_wire(Format::flexible(4), buf)
    }
}

/// Result for a partition in AddPartitionsToTxn.
#[derive(Debug, Clone)]
pub struct AddPartitionsToTxnPartitionResult {
    /// Partition index.
    pub partition: i32,
    /// Error code.
    pub error_code: ErrorCode,
}

impl View for AddPartitionsToTxnPartitionResult {
    type V = AddPartitionsToTxnPartitionResult;

    open spec fn view(&self) -> AddPartitionsToTxnPartitionResult {
        *self
    }
}

impl WireDecode for AddPartitionsToTxnPartitionResult {
    open spec fn read(f: Format, r: Reader) -> (AddPartitionsToTxnPartitionResult, Reader) {
        let (partition, r) = r.i32();
        let (error_code, r) = r.error_code();
        let r = r.tags(f.flexible);
        let value = AddPartitionsToTxnPartitionResult {
            partition,
            error_code,
        };
        (value, r)
    }

    fn decode_wire(f: Format, buf: &mut Bytes) -> (res: Result<Self>) {
        let partition = read_i32(buf)?;
        let error_code = read_error_code(buf)?;
        read_tags(f.flexible, buf)?;
        Ok(AddPartitionsToTxnPartitionResult {
            partition,
            error_code,
        })
    }

    proof fn law_consumes(f: Format, r: Reader) {
        broadcast use group_consumes;

    }

    proof fn law_ignores_what_follows(f: Format, r: Reader, more: Seq<u8>) {
        broadcast use group_consumes, group_followed;

    }

    proof fn law_needs_only_what_it_takes(f: Format, r: Reader, k: nat) {
        broadcast use group_consumes, group_cut;

    }
}

/// Result for a topic in AddPartitionsToTxn.
#[derive(Debug, Clone)]
pub struct AddPartitionsToTxnTopicResult {
    /// Topic name.
    pub name: String,
    /// Partition results.
    pub partitions: Vec<AddPartitionsToTxnPartitionResult>,
}

/// What a [`AddPartitionsToTxnTopicResult`] holds.
pub struct AddPartitionsToTxnTopicResultView {
    /// Topic name.
    pub name: Seq<char>,
    /// Partition results.
    pub partitions: Seq<AddPartitionsToTxnPartitionResult>,
}

impl View for AddPartitionsToTxnTopicResult {
    type V = AddPartitionsToTxnTopicResultView;

    open spec fn view(&self) -> AddPartitionsToTxnTopicResultView {
        AddPartitionsToTxnTopicResultView {
            name: self.name@,
            partitions: views(self.partitions@),
        }
    }
}

impl WireDecode for AddPartitionsToTxnTopicResult {
    open spec fn read(f: Format, r: Reader) -> (AddPartitionsToTxnTopicResultView, Reader) {
        let (name, r) = r.string("topic name", f.flexible);
        let (partitions, r) = r.array::<AddPartitionsToTxnPartitionResult>(f);
        let r = r.tags(f.flexible);
        let value = AddPartitionsToTxnTopicResultView {
            name,
            partitions,
        };
        (value, r)
    }

    fn decode_wire(f: Format, buf: &mut Bytes) -> (res: Result<Self>) {
        let name = read_string("topic name", f.flexible, buf)?;
        let partitions = read_array::<AddPartitionsToTxnPartitionResult>(f, buf)?;
        read_tags(f.flexible, buf)?;
        Ok(AddPartitionsToTxnTopicResult {
            name,
            partitions,
        })
    }

    proof fn law_consumes(f: Format, r: Reader) {
        broadcast use group_consumes;

    }

    proof fn law_ignores_what_follows(f: Format, r: Reader, more: Seq<u8>) {
        broadcast use group_consumes, group_followed;

    }

    proof fn law_needs_only_what_it_takes(f: Format, r: Reader, k: nat) {
        broadcast use group_consumes, group_cut;

    }
}

/// The results of one transaction of a batch.
pub struct TransactionResults {
    /// Results by topic.
    pub topics: Vec<AddPartitionsToTxnTopicResult>,
}

impl View for TransactionResults {
    type V = Seq<AddPartitionsToTxnTopicResultView>;

    open spec fn view(&self) -> Seq<AddPartitionsToTxnTopicResultView> {
        views(self.topics@)
    }
}

impl WireDecode for TransactionResults {
    open spec fn read(f: Format, r: Reader) -> (Seq<AddPartitionsToTxnTopicResultView>, Reader) {
        let r = r.nullable_string(f.flexible).1;
        let (topics, r) = r.array::<AddPartitionsToTxnTopicResult>(f);
        let r = r.tags(f.flexible);
        (topics, r)
    }

    fn decode_wire(f: Format, buf: &mut Bytes) -> (res: Result<Self>) {
        read_nullable_string(f.flexible, buf)?;
        let topics = read_array::<AddPartitionsToTxnTopicResult>(f, buf)?;
        read_tags(f.flexible, buf)?;
        Ok(TransactionResults { topics })
    }

    proof fn law_consumes(f: Format, r: Reader) {
        broadcast use group_consumes;

    }

    proof fn law_ignores_what_follows(f: Format, r: Reader, more: Seq<u8>) {
        broadcast use group_consumes, group_followed;

    }

    proof fn law_needs_only_what_it_takes(f: Format, r: Reader, k: nat) {
        broadcast use group_consumes, group_cut;

    }
}

/// AddPartitionsToTxn response.
#[derive(Debug, Clone)]
pub struct AddPartitionsToTxnResponse {
    /// Throttle time in milliseconds.
    pub throttle_time_ms: i32,
    /// Results by topic.
    pub results: Vec<AddPartitionsToTxnTopicResult>,
}

/// What a [`AddPartitionsToTxnResponse`] holds.
pub struct AddPartitionsToTxnResponseView {
    /// Throttle time in milliseconds.
    pub throttle_time_ms: i32,
    /// Results by topic.
    pub results: Seq<AddPartitionsToTxnTopicResultView>,
}

impl View for AddPartitionsToTxnResponse {
    type V = AddPartitionsToTxnResponseView;

    open spec fn view(&self) -> AddPartitionsToTxnResponseView {
        AddPartitionsToTxnResponseView {
            throttle_time_ms: self.throttle_time_ms,
            results: views(self.results@),
        }
    }
}

impl WireDecode for AddPartitionsToTxnResponse {
    /// From version 4 on an error of the whole response comes first, and the
    /// results stand in an array of transactions, of which the first one counts.
    open spec fn read(f: Format, r: Reader) -> (AddPartitionsToTxnResponseView, Reader) {
        let (throttle_time_ms, r) = r.i32();
        let (results, r) = if f.version >= 4 {
            let (error_code, r) = r.error_code();
            let r = if error_code == ErrorCode::NoError {
                r
            } else {
                r.raise(KrafkaError::Broker(error_code, "AddPartitionsToTxn v4+ top-level error"))
            };
            let (batch, r) = r.array::<TransactionResults>(f);
            (
                if batch.len() > 0 {
                    batch[0]
                } else {
                    Seq::empty()
                },
                r,
            )
        } else {
            r.array::<AddPartitionsToTxnTopicResult>(f)
        };
        let r = r.tags(f.flexible);
        (AddPartitionsToTxnResponseView { throttle_time_ms, results }, r)
    }

    fn decode_wire(f: Format, buf: &mut Bytes) -> (res: Result<Self>) {
        let throttle_time_ms = read_i32(buf)?;
        let results: Vec<AddPartitionsToTxnTopicResult> = if f.version >= 4 {
            let error_code = read_error_code(buf)?;
            if !error_code.is_ok() {
                return Err(
                    KrafkaError::Broker(error_code, "AddPartitionsToTxn v4+ top-level error"),
                );
            }
            let mut batch = read_array::<TransactionResults>(f, buf)?;
            if batch.len() > 0 {
                let first = batch.remove(0);
                first.topics
            } else {
                no_items()
            }
        } else {
            read_array::<AddPartitionsToTxnTopicResult>(f, buf)?
        };
        read_tags(f.flexible, buf)?;
        Ok(AddPartitionsToTxnResponse { throttle_time_ms, results })
    }

    proof fn law_consumes(f: Format, r: Reader) {
        broadcast use group_consumes;

    }

    proof fn law_ignores_what_follows(f: Format, r: Reader, more: Seq<u8>) {
        broadcast use group_consumes, group_followed;

    }

    proof fn law_needs_only_what_it_takes(f: Format, r: Reader, k: nat) {
        broadcast use group_consumes, group_cut;

    }
}

impl AddPartitionsToTxnResponse {
    /// Decode from version 0-2.
    pub fn decode_v0(buf: &mut Bytes) -> (res: Result<Self>)
        ensures
            decoded(
                result_view(res),
                final(buf)@,
                Self::read(Format::plain(0), Reader::on(old(buf)@)),
            ),
    {
        Self::decode_wire(Format::plain(0), buf)
    }

    /// Decode from version 3 (flexible: compact strings, varint arrays, tagged fields).
    pub fn decode_v3(buf: &mut Bytes) -> (res: Result<Self>)
        ensures
            decoded(
                result_view(res),
                final(buf)@,
                Self::read(Format::flexible(3), Reader::on(old(buf)@)),
            ),
    {
        Self::decode_wire(Format::flexible(3), buf)
    }

    /// Decode from version 4-5 (batched: `ResultsByTransaction` compact array).
    ///
    /// Extracts results from the first transaction in the batched response.
    pub fn decode_v4(buf: &mut Bytes) -> (res: Result<Self>)
        ensures
            decoded(
                result_view(res),
                final(buf)@,
                Self::read(Format::flexible(4), Reader::on(old(buf)@)),
            ),
    {
        Self::decode_wire(Format::flexible(4), buf)
    }
}

impl AddPartitionsToTxnResponse {
    /// Check if all partitions were added successfully.
    pub fn is_ok(&self) -> (r: bool)
        ensures
            r == (forall|i: int, j: int|
                0 <= i < self.results@.len() && 0 <= j < self.results@[i].partitions@.len() ==> (
                #[trigger] self.results@[i].partitions@[j]).error_code == ErrorCode::NoError),
    {
        let mut i: usize = 0;
        while i < self.results.len()
            invariant
                i <= self.results@.len(),
                forall|k: int, j: int|
                    0 <= k < i && 0 <= j < self.results@[k].partitions@.len() ==> (
                    #[trigger] self.results@[k].partitions@[j]).error_code == ErrorCode::NoError,
            decreases self.results@.len() - i,
        {
            let mut j: usize = 0;
            while j < self.results[i].partitions.len()
                invariant
                    i < self.results@.len(),
                    j <= self.results@[i as int].partitions@.len(),
                    forall|k: int|
                        0 <= k < j ==> (#[trigger] self.results@[i as int].partitions@[k]).error_code
                            == ErrorCode::NoError,
                decreases self.results@[i as int].partitions@.len() - j,
            {
                if !self.results[i].partitions[j].error_code.is_ok() {
                    assert(self.results@[i as int].partitions@[j as int].error_code
                        != ErrorCode::NoError);
                    return false;
                }
                j = j + 1;
            }
            i = i + 1;
        }
        true
    }
}

impl VersionedEncode for AddPartitionsToTxnRequest {
    open spec fn request_key() -> ApiKey {
        ApiKey::AddPartitionsToTxn
    }

    open spec fn encodes(version: i16) -> bool {
        0 <= version <= 5
    }

    open spec fn request_format(version: i16) -> Format {
        match version {
            0 | 1 | 2 => Format::plain(0),
            3 => Format::flexible(3),
            _ => Format::flexible(4),
        }
    }

    open spec fn request_name() -> &'static str {
        "AddPartitionsToTxnRequest"
    }

    fn encode_versioned(&self, version: i16, buf: &mut BytesMut) -> (res: Result<()>) {
        match version {
            0 | 1 | 2 => self.encode_v0(buf),
            3 => self.encode_v3(buf),
            4 | 5 => self.encode_v4(buf),
            _ => Err(
                KrafkaError::Protocol(
                    ProtocolErrorKind::Malformed,
                    Reason::UnsupportedEncode("AddPartitionsToTxnRequest", version),
                ),
            ),
        }
    }

    proof fn law_request_format(&self, version: i16, w: Writer) {
    }

    proof fn law_unsupported_encode(&self, version: i16, w: Writer) {
    }
}

impl VersionedDecode for AddPartitionsToTxnResponse {
    open spec fn response_key() -> ApiKey {
        ApiKey::AddPartitionsToTxn
    }

    open spec fn decodes(version: i16) -> bool {
        0 <= version <= 5
    }

    open spec fn response_format(version: i16) -> Format {
        match version {
            0 | 1 | 2 => Format::plain(0),
            3 => Format::flexible(3),
            _ => Format::flexible(4),
        }
    }

    open spec fn response_name() -> &'static str {
        "AddPartitionsToTxnResponse"
    }

    fn decode_versioned(version: i16, buf: &mut Bytes) -> (res: Result<Self>) {
        match version {
            0 | 1 | 2 => Self::decode_v0(buf),
            3 => Self::decode_v3(buf),
            4 | 5 => Self::decode_v4(buf),
            _ => Err(
                KrafkaError::Protocol(
                    ProtocolErrorKind::Malformed,
                    Reason::UnsupportedDecode("AddPartitionsToTxnResponse", version),
                ),
            ),
        }
    }

    proof fn law_response_format(version: i16, r: Reader) {
    }

    proof fn law_unsupported_decode(version: i16, r: Reader) {
    }
}

/// Versions 4 and 5 of the request have one format, and so have 0 to 2.
pub proof fn law_add_partitions_requests_share_formats(
    request: AddPartitionsToTxnRequest,
    w: Writer,
)
    ensures
        request.written_versioned(1, w) == request.written_versioned(0, w),
        request.written_versioned(2, w) == request.written_versioned(0, w),
        request.written_versioned(5, w) == request.written_versioned(4, w),
{
}

/// Versions 4 and 5 of the response have one format, and so have 0 to 2.
pub proof fn law_add_partitions_responses_share_formats(r: Reader)
    ensures
        AddPartitionsToTxnResponse::read_versioned(1, r)
            == AddPartitionsToTxnResponse::read_versioned(0, r),
        AddPartitionsToTxnResponse::read_versioned(2, r)
            == AddPartitionsToTxnResponse::read_versioned(0, r),
        AddPartitionsToTxnResponse::read_versioned(5, r)
            == AddPartitionsToTxnResponse::read_versioned(4, r),
{
}

/// A response of version 4 with an error of its own is refused with that error.
pub proof fn law_batched_response_error(r: Reader)
    requires
        !r.i32().1.error_code().1.failed(),
        r.i32().1.error_code().0 != ErrorCode::NoError,
    ensures
        AddPartitionsToTxnResponse::read(Format::flexible(4), r).1.failure == Some(
            KrafkaError::Broker(
                r.i32().1.error_code().0,
                "AddPartitionsToTxn v4+ top-level error",
            ),
        ),
{
}

} // verus!
