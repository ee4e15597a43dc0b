//! Producer identity and transactions.

use crate::buffer::Octets;
use crate::error::{ErrorCode, KrafkaError, ProtocolErrorKind, Reason, Result};
use crate::protocol::api::ApiKey;
use crate::protocol::messages::{VersionedDecode, VersionedEncode};
use crate::protocol::wire::{
    decoded, encoded, fits, group_appends, group_consumes, group_cut, group_followed, group_grows,
    optional_text, read_array, read_error_code, read_i16, read_i32, read_i64, read_string_or_empty,
    result_view, views, write_array, write_bool, write_i16, write_i32, write_i64,
    write_nullable_string, write_string, Format, Reader, WireDecode, WireEncode, Writer,
};
use bytes::{Bytes, BytesMut};
use vstd::prelude::*;

verus! {

/// Request to initialize producer ID for idempotent/transactional production.
#[derive(Debug, Clone)]
pub struct InitProducerIdRequest {
    /// Transactional ID (null for non-transactional producers).
    pub transactional_id: Option<String>,
    /// Transaction timeout in milliseconds (-1 for non-transactional).
    pub transaction_timeout_ms: i32,
    /// Producer ID to use (for recovery; -1 for new producer).
    pub producer_id: i64,
    /// Producer epoch to use (for recovery; -1 for new producer).
    pub producer_epoch: i16,
}

impl InitProducerIdRequest {
    /// Create a request for a non-transactional idempotent producer.
    pub fn idempotent() -> (r: Self)
        ensures
            r.transactional_id is None,
            r.transaction_timeout_ms == -1,
            r.producer_id == -1,
            r.producer_epoch == -1,
    {
        InitProducerIdRequest {
            transactional_id: None,
            transaction_timeout_ms: -1,
            producer_id: -1,
            producer_epoch: -1,
        }
    }
}

impl InitProducerIdRequest {
    /// Create a request for a transactional producer.
    pub fn transactional(transactional_id: &str, timeout_ms: i32) -> (r: Self)
        ensures
            optional_text(r.transactional_id) == Some(transactional_id@),
            r.transaction_timeout_ms == timeout_ms,
            r.producer_id == -1,
            r.producer_epoch == -1,
    {
        InitProducerIdRequest {
            transactional_id: Some(transactional_id.to_owned()),
            transaction_timeout_ms: timeout_ms,
            producer_id: -1,
            producer_epoch: -1,
        }
    }
}

impl WireEncode for InitProducerIdRequest {
    open spec fn written(&self, f: Format, w: Writer) -> Writer {
        let w = w.nullable_string(optional_text(self.transactional_id), f.flexible);
        let w = w.i32(self.transaction_timeout_ms);
        let w = if f.version >= 2 {
            w.i64(self.producer_id)
        } else {
            w
        };
        if f.version >= 2 {
            w.i16(self.producer_epoch)
        } else {
            w
        }
    }

    proof fn lemma_grows(&self, f: Format, w: Writer) {
        broadcast use group_grows;

    }

    proof fn law_appends(&self, f: Format, w: Writer) {
        broadcast use group_appends;

    }

    fn encode_wire(&self, f: Format, buf: &mut BytesMut) -> (res: Result<()>) {
        broadcast use group_grows;

        write_nullable_string(&self.transactional_id, f.flexible, buf)?;
        write_i32(self.transaction_timeout_ms, buf);
        if f.version >= 2 {
            write_i64(self.producer_id, buf);
        }
        if f.version >= 2 {
            write_i16(self.producer_epoch, buf);
        }
        Ok(())
    }
}

impl InitProducerIdRequest {
    /// Encode as version 0 (non-transactional idempotent only).
    pub fn encode_v0(&self, buf: &mut BytesMut) -> (res: Result<()>)
        requires
            fits(self.written(Format::plain(0), Writer::at(old(buf)@))),
        ensures
            encoded(res, final(buf)@, self.written(Format::plain(0), Writer::at(old(buf)@))),
    {
        self.encode_wire(Format::plain(0), buf)
    }

    /// Encode as version 2 (with producer_id and epoch for recovery).
    pub fn encode_v2(&self, buf: &mut BytesMut) -> (res: Result<()>)
        requires
            fits(self.written(Format::plain(2), Writer::at(old(buf)@))),
        ensures
            encoded(res, final(buf)@, self.written(Format::plain(2), Writer::at(old(buf)@))),
    {
        self.encode_wire(Format::plain(2), buf)
    }
}

/// Response from InitProducerId.
#[derive(Debug, Clone)]
pub struct InitProducerIdResponse {
    /// Throttle time in milliseconds.
    pub throttle_time_ms: i32,
    /// Error code.
    pub error_code: ErrorCode,
    /// Producer ID assigned by the broker.
    pub producer_id: i64,
    /// Producer epoch assigned by the broker.
    pub producer_epoch: i16,
}

impl View for InitProducerIdResponse {
    type V = InitProducerIdResponse;

    open spec fn view(&self) -> InitProducerIdResponse {
        *self
    }
}

impl WireDecode for InitProducerIdResponse {
    open spec fn read(f: Format, r: Reader) -> (InitProducerIdResponse, Reader) {
        let (throttle_time_ms, r) = r.i32();
        let (error_code, r) = r.error_code();
        let (producer_id, r) = r.i64();
        let (producer_epoch, r) = r.i16();
        let value = InitProducerIdResponse {
            throttle_time_ms,
            error_code,
            producer_id,
            producer_epoch,
        };
        (value, r)
    }

    fn decode_wire(f: Format, buf: &mut Bytes) -> (res: Result<Self>) {
        let throttle_time_ms = read_i32(buf)?;
        let error_code = read_error_code(buf)?;
        let producer_id = read_i64(buf)?;
        let producer_epoch = read_i16(buf)?;
        Ok(InitProducerIdResponse {
            throttle_time_ms,
            error_code,
            producer_id,
            producer_epoch,
        })
    }

    proof fn law_consumes(f: Format, r: Reader) {
        broadcast use group_consumes;

    }

    proof fn law_ignores_what_follows(f: Format, r: Reader, more: Seq<u8>) {
        broadcast use group_consumes, group_followed;

    }

    proof fn law_needs_only_what_it_takes(f: Format, r: Reader, k: nat) {
        broadcast use group_consumes, group_cut;

    }
}

impl InitProducerIdResponse {
    /// Decode from version 0.
    pub fn decode_v0(buf: &mut Bytes) -> (res: Result<Self>)
        ensures
            decoded(
                result_view(res),
                final(buf)@,
                Self::read(Format::plain(0), Reader::on(old(buf)@)),
            ),
    {
        Self::decode_wire(Format::plain(0), buf)
    }
}

impl InitProducerIdResponse {
    /// Check if the response indicates success.
    pub fn is_ok(&self) -> (r: bool)
        ensures
            r == (self.error_code == ErrorCode::NoError),
    {
        self.error_code.is_ok()
    }
}

impl VersionedEncode for InitProducerIdRequest {
    open spec fn request_key() -> ApiKey {
        ApiKey::InitProducerId
    }

    open spec fn encodes(version: i16) -> bool {
        version == 0
    }

    open spec fn request_format(version: i16) -> Format {
        Format::plain(0)
    }

    open spec fn request_name() -> &'static str {
        "InitProducerIdRequest"
    }

    fn encode_versioned(&self, version: i16, buf: &mut BytesMut) -> (res: Result<()>) {
        match version {
            0 => self.encode_v0(buf),
            _ => Err(
                KrafkaError::Protocol(
                    ProtocolErrorKind::Malformed,
                    Reason::UnsupportedEncode("InitProducerIdRequest", version),
                ),
            ),
        }
    }

    proof fn law_request_format(&self, version: i16, w: Writer) {
    }

    proof fn law_unsupported_encode(&self, version: i16, w: Writer) {
    }
}

impl VersionedDecode for InitProducerIdResponse {
    open spec fn response_key() -> ApiKey {
        ApiKey::InitProducerId
    }

    open spec fn decodes(version: i16) -> bool {
        version == 0
    }

    open spec fn response_format(version: i16) -> Format {
        Format::plain(0)
    }

    open spec fn response_name() -> &'static str {
        "InitProducerIdResponse"
    }

    fn decode_versioned(version: i16, buf: &mut Bytes) -> (res: Result<Self>) {
        match version {
            0 => Self::decode_v0(buf),
            _ => Err(
                KrafkaError::Protocol(
                    ProtocolErrorKind::Malformed,
                    Reason::UnsupportedDecode("InitProducerIdResponse", version),
                ),
            ),
        }
    }

    proof fn law_response_format(version: i16, r: Reader) {
    }

    proof fn law_unsupported_decode(version: i16, r: Reader) {
    }
}

/// Transaction result type for EndTxn.
#[derive(Debug, Clone, Copy, PartialEq, Eq, Structural)]
pub enum TransactionResult {
    /// Commit the transaction.
    Commit,
    /// Abort the transaction.
    Abort,
}

impl TransactionResult {
    /// Convert to bool (true = commit, false = abort).
    pub fn to_bool(self) -> (r: bool)
        ensures
            r == (self == TransactionResult::Commit),
    {
        match self {
            TransactionResult::Commit => true,
            TransactionResult::Abort => false,
        }
    }

    /// Create from bool.
    pub fn from_bool(committed: bool) -> (r: Self)
        ensures
            r == if committed {
                TransactionResult::Commit
            } else {
                TransactionResult::Abort
            },
    {
        if committed {
            TransactionResult::Commit
        } else {
            TransactionResult::Abort
        }
    }
}

/// AddPartitionsToTxn request (API Key 24).
///
/// Adds partitions to an ongoing transaction.
#[derive(Debug, Clone)]
pub struct AddPartitionsToTxnRequest {
    /// Transactional ID.
    pub transactional_id: String,
    /// Producer ID.
    pub producer_id: i64,
    /// Producer epoch.
    pub producer_epoch: i16,
    /// Topics to add.
    pub topics: Vec<AddPartitionsToTxnTopic>,
}

/// Topic in AddPartitionsToTxn request.
#[derive(Debug, Clone)]
pub struct AddPartitionsToTxnTopic {
    /// Topic name.
    pub name: String,
    /// Partition indices.
    pub partitions: Vec<i32>,
}

/// What a [`AddPartitionsToTxnTopic`] holds.
pub struct AddPartitionsToTxnTopicView {
    /// Topic name.
    pub name: Seq<char>,
    /// Partition indices.
    pub partitions: Seq<i32>,
}

impl View for AddPartitionsToTxnTopic {
    type V = AddPartitionsToTxnTopicView;

    open spec fn view(&self) -> AddPartitionsToTxnTopicView {
        AddPartitionsToTxnTopicView {
            name: self.name@,
            partitions: views(self.partitions@),
        }
    }
}

impl WireEncode for AddPartitionsToTxnTopic {
    open spec fn written(&self, f: Format, w: Writer) -> Writer {
        let w = w.string(self.name@, f.flexible);
        w.array(self.partitions@, f)
    }

    proof fn lemma_grows(&self, f: Format, w: Writer) {
        broadcast use group_grows;

    }

    proof fn law_appends(&self, f: Format, w: Writer) {
        broadcast use group_appends;

    }

    fn encode_wire(&self, f: Format, buf: &mut BytesMut) -> (res: Result<()>) {
        broadcast use group_grows;

        write_string(self.name.as_str(), f.flexible, buf)?;
        write_array(&self.partitions, f, buf)?;
        Ok(())
    }
}

impl WireEncode for AddPartitionsToTxnRequest {
    open spec fn written(&self, f: Format, w: Writer) -> Writer {
        let w = w.string(self.transactional_id@, f.flexible);
        let w = w.i64(self.producer_id);
        let w = w.i16(self.producer_epoch);
        w.array(self.topics@, f)
    }

    proof fn lemma_grows(&self, f: Format, w: Writer) {
        broadcast use group_grows;

    }

    proof fn law_appends(&self, f: Format, w: Writer) {
        broadcast use group_appends;

    }

    fn encode_wire(&self, f: Format, buf: &mut BytesMut) -> (res: Result<()>) {
        broadcast use group_grows;

        write_string(self.transactional_id.as_str(), f.flexible, buf)?;
        write_i64(self.producer_id, buf);
        write_i16(self.producer_epoch, buf);
        write_array(&self.topics, f, buf)?;
        Ok(())
    }
}

impl AddPartitionsToTxnRequest {
    /// Create a new request.
    pub fn new(transactional_id: &str, producer_id: i64, producer_epoch: i16) -> (r: Self)
        ensures
            r.transactional_id@ == transactional_id@,
            r.producer_id == producer_id,
            r.producer_epoch == producer_epoch,
            r.topics@.len() == 0,
    {
        AddPartitionsToTxnRequest {
            transactional_id: transactional_id.to_owned(),
            producer_id,
            producer_epoch,
            topics: Vec::new(),
        }
    }
}

/// The index of the first topic with a name, from `from` on, or the number of
/// topics where there is none.
pub open spec fn first_topic(
    topics: Seq<AddPartitionsToTxnTopicView>,
    name: Seq<char>,
    from: nat,
) -> nat
    decreases topics.len() - from,
{
    if from >= topics.len() {
        topics.len()
    } else if topics[from as int].name == name {
        from
    } else {
        first_topic(topics, name, from + 1)
    }
}

/// The topics with one more partition: in the first topic of that name, unless it
/// is there already, or in a new topic at the end.
pub open spec fn with_partition(
    topics: Seq<AddPartitionsToTxnTopicView>,
    name: Seq<char>,
    partition: i32,
) -> Seq<AddPartitionsToTxnTopicView> {
    let i = first_topic(topics, name, 0);
    if i >= topics.len() {
        topics.push(AddPartitionsToTxnTopicView { name, partitions: seq![partition] })
    } else {
        let topic = topics[i as int];
        if topic.partitions.contains(partition) {
            topics
        } else {
            topics.update(
                i as int,
                AddPartitionsToTxnTopicView {
                    name: topic.name,
                    partitions: topic.partitions.push(partition),
                },
            )
        }
    }
}

/// Whether no topic stands twice, nor a partition within a topic.
pub open spec fn without_repeats(topics: Seq<AddPartitionsToTxnTopicView>) -> bool {
    &&& forall|i: int, j: int|
        0 <= i < j < topics.len() ==> (#[trigger] topics[i]).name != (#[trigger] topics[j]).name
    &&& forall|i: int| 0 <= i < topics.len() ==> (#[trigger] topics[i]).partitions.no_duplicates()
}

/// Where the first topic of a name stands.
proof fn lemma_first_topic(topics: Seq<AddPartitionsToTxnTopicView>, name: Seq<char>, from: nat)
    requires
        from <= topics.len(),
    ensures
        ({
            let i = first_topic(topics, name, from);
            &&& from <= i <= topics.len()
            &&& i < topics.len() ==> topics[i as int].name == name
            &&& forall|k: int| from <= k < i ==> (#[trigger] topics[k]).name != name
        }),
    decreases topics.len() - from,
{
    if from < topics.len() && topics[from as int].name != name {
        lemma_first_topic(topics, name, from + 1);
    }
}

/// Adding a partition keeps topics and partitions free of repeats.
pub proof fn law_adding_keeps_partitions_distinct(
    topics: Seq<AddPartitionsToTxnTopicView>,
    name: Seq<char>,
    partition: i32,
)
    requires
        without_repeats(topics),
    ensures
        without_repeats(with_partition(topics, name, partition)),
{
    lemma_first_topic(topics, name, 0);
    let i = first_topic(topics, name, 0) as int;
    if i < topics.len() {
        assert(topics[i].partitions.no_duplicates());
    }
}

/// Adding a partition leaves every topic in its place with its name, and every
/// partition in its topic. The partition goes behind those of the first topic of its
/// name, unless it is there, or into a new topic behind the others.
pub proof fn law_adding_a_partition(
    topics: Seq<AddPartitionsToTxnTopicView>,
    name: Seq<char>,
    partition: i32,
    i: nat,
)
    requires
        i <= topics.len(),
        forall|k: int| 0 <= k < i ==> (#[trigger] topics[k]).name != name,
        i < topics.len() ==> topics[i as int].name == name,
    ensures
        ({
            let after = with_partition(topics, name, partition);
            &&& forall|k: int|
                0 <= k < topics.len() && k != i ==> #[trigger] after[k] == topics[k]
            &&& i == topics.len() ==> {
                &&& after.len() == topics.len() + 1
                &&& after.last().name == name
                &&& after.last().partitions == seq![partition]
            }
            &&& i < topics.len() ==> {
                &&& after.len() == topics.len()
                &&& after[i as int].name == name
                &&& after[i as int].partitions == (if topics[i as int].partitions.contains(
                    partition,
                ) {
                    topics[i as int].partitions
                } else {
                    topics[i as int].partitions.push(partition)
                })
            }
        }),
{
    lemma_first_topic(topics, name, 0);
    let found = first_topic(topics, name, 0);
    if found < i {
        assert(topics[found as int].name != name);
    }
    if i < found {
        assert(topics[i as int].name != name);
    }
}

/// A partition that was added is there, and adding it again changes nothing.
pub proof fn law_adding_a_partition_twice(
    topics: Seq<AddPartitionsToTxnTopicView>,
    name: Seq<char>,
    partition: i32,
)
    ensures
        ({
            let once = with_partition(topics, name, partition);
            let i = first_topic(once, name, 0);
            &&& i < once.len()
            &&& once[i as int].partitions.contains(partition)
            &&& with_partition(once, name, partition) == once
        }),
{
    let once = with_partition(topics, name, partition);
    lemma_first_topic(topics, name, 0);
    lemma_first_topic(once, name, 0);
    let i = first_topic(topics, name, 0) as int;
    assert(once[i].name == name);
    if i < topics.len() {
        if !topics[i].partitions.contains(partition) {
            assert(once[i].partitions.last() == partition);
        }
    } else {
        assert(once[i].partitions[0] == partition);
    }
    assert forall|k: int| 0 <= k < i implies (#[trigger] once[k]).name != name by {
        assert(topics[k].name != name);
    }
    assert(first_topic(once, name, 0) == i);
}

impl AddPartitionsToTxnRequest {
    /// Add a partition to a topic.
    pub fn add_partition(self, topic: &str, partition: i32) -> (r: Self)
        ensures
            r.transactional_id == self.transactional_id,
            r.producer_id == self.producer_id,
            r.producer_epoch == self.producer_epoch,
            views(r.topics@) == with_partition(views(self.topics@), topic@, partition),
    {
        let ghost before = views(self.topics@);
        let name = topic.to_owned();
        let mut topics = self.topics;
        let mut i: usize = 0;
        while i < topics.len()
            invariant
                i <= topics@.len(),
                name@ == topic@,
                views(topics@) == before,
                first_topic(before, topic@, 0) == first_topic(before, topic@, i as nat),
            ensures
                i <= topics@.len(),
                name@ == topic@,
                views(topics@) == before,
                first_topic(before, topic@, 0) == i,
            decreases topics@.len() - i,
        {
            assert(before[i as int] == topics@[i as int]@);
            if topics[i].name == name {
                break;
            }
            i = i + 1;
        }
        if i < topics.len() {
            let mut found = topics.remove(i);
            assert(before[i as int] == found@);
            assert(before[i as int].partitions =~= found.partitions@);
            let mut there: bool = false;
            let mut k: usize = 0;
            while k < found.partitions.len()
                invariant
                    k <= found.partitions@.len(),
                    there == found.partitions@.take(k as int).contains(partition),
                decreases found.partitions@.len() - k,
            {
                if found.partitions[k] == partition {
                    there = true;
                }
                assert(found.partitions@.take(k + 1) =~= found.partitions@.take(k as int).push(
                    found.partitions@[k as int],
                ));
                proof {
                    let front = found.partitions@.take(k as int);
                    let last = found.partitions@[k as int];
                    if front.contains(partition) {
                        let w = choose|w: int| 0 <= w < front.len() && front[w] == partition;
                        assert(front.push(last)[w] == partition);
                    }
                    if last == partition {
                        assert(front.push(last)[k as int] == partition);
                    }
                }
                k = k + 1;
            }
            assert(found.partitions@.take(k as int) =~= found.partitions@);
            if !there {
                found.partitions.push(partition);
            }
            assert(found@.partitions =~= found.partitions@);
            topics.insert(i, found);
        } else {
            let mut partitions: Vec<i32> = Vec::new();
            partitions.push(partition);
            let added = AddPartitionsToTxnTopic { name, partitions };
            assert(added@.partitions =~= seq![partition]);
            topics.push(added);
        }
        assert(views(topics@) =~= with_partition(before, topic@, partition));
        AddPartitionsToTxnRequest {
            transactional_id: self.transactional_id,
            producer_id: self.producer_id,
            producer_epoch: self.producer_epoch,
            topics,
        }
    }
}

impl AddPartitionsToTxnRequest {
    /// Encode as version 0.
    pub fn encode_v0(&self, buf: &mut BytesMut) -> (res: Result<()>)
        requires
            fits(self.written(Format::plain(0), Writer::at(old(buf)@))),
        ensures
            encoded(res, final(buf)@, self.written(Format::plain(0), Writer::at(old(buf)@))),
    {
        self.encode_wire(Format::plain(0), buf)
    }
}

/// Result for a partition in AddPartitionsToTxn.
#[derive(Debug, Clone)]
pub struct AddPartitionsToTxnPartitionResult {
    /// Partition index.
    pub partition: i32,
    /// Error code.
    pub error_code: ErrorCode,
}

impl View for AddPartitionsToTxnPartitionResult {
    type V = AddPartitionsToTxnPartitionResult;

    open spec fn view(&self) -> AddPartitionsToTxnPartitionResult {
        *self
    }
}

impl WireDecode for AddPartitionsToTxnPartitionResult {
    open spec fn read(f: Format, r: Reader) -> (AddPartitionsToTxnPartitionResult, Reader) {
        let (partition, r) = r.i32();
        let (error_code, r) = r.error_code();
        let value = AddPartitionsToTxnPartitionResult {
            partition,
            error_code,
        };
        (value, r)
    }

    fn decode_wire(f: Format, buf: &mut Bytes) -> (res: Result<Self>) {
        let partition = read_i32(buf)?;
        let error_code = read_error_code(buf)?;
        Ok(AddPartitionsToTxnPartitionResult {
            partition,
            error_code,
        })
    }

    proof fn law_consumes(f: Format, r: Reader) {
        broadcast use group_consumes;

    }

    proof fn law_ignores_what_follows(f: Format, r: Reader, more: Seq<u8>) {
        broadcast use group_consumes, group_followed;

    }

    proof fn law_needs_only_what_it_takes(f: Format, r: Reader, k: nat) {
        broadcast use group_consumes, group_cut;

    }
}

/// Result for a topic in AddPartitionsToTxn.
#[derive(Debug, Clone)]
pub struct AddPartitionsToTxnTopicResult {
    /// Topic name.
    pub name: String,
    /// Partition results.
    pub partitions: Vec<AddPartitionsToTxnPartitionResult>,
}

/// What a [`AddPartitionsToTxnTopicResult`] holds.
pub struct AddPartitionsToTxnTopicResultView {
    /// Topic name.
    pub name: Seq<char>,
    /// Partition results.
    pub partitions: Seq<AddPartitionsToTxnPartitionResult>,
}

impl View for AddPartitionsToTxnTopicResult {
    type V = AddPartitionsToTxnTopicResultView;

    open spec fn view(&self) -> AddPartitionsToTxnTopicResultView {
        AddPartitionsToTxnTopicResultView {
            name: self.name@,
            partitions: views(self.partitions@),
        }
    }
}

impl WireDecode for AddPartitionsToTxnTopicResult {
    open spec fn read(f: Format, r: Reader) -> (AddPartitionsToTxnTopicResultView, Reader) {
        let (name, r) = r.string_or_empty(f.flexible);
        let (partitions, r) = r.array::<AddPartitionsToTxnPartitionResult>(f);
        let value = AddPartitionsToTxnTopicResultView {
            name,
            partitions,
        };
        (value, r)
    }

    fn decode_wire(f: Format, buf: &mut Bytes) -> (res: Result<Self>) {
        let name = read_string_or_empty(f.flexible, buf)?;
        let partitions = read_array::<AddPartitionsToTxnPartitionResult>(f, buf)?;
        Ok(AddPartitionsToTxnTopicResult {
            name,
            partitions,
        })
    }

    proof fn law_consumes(f: Format, r: Reader) {
        broadcast use group_consumes;

    }

    proof fn law_ignores_what_follows(f: Format, r: Reader, more: Seq<u8>) {
        broadcast use group_consumes, group_followed;

    }

    proof fn law_needs_only_what_it_takes(f: Format, r: Reader, k: nat) {
        broadcast use group_consumes, group_cut;

    }
}

/// AddPartitionsToTxn response.
#[derive(Debug, Clone)]
pub struct AddPartitionsToTxnResponse {
    /// Throttle time in milliseconds.
    pub throttle_time_ms: i32,
    /// Results by topic.
    pub results: Vec<AddPartitionsToTxnTopicResult>,
}

/// What a [`AddPartitionsToTxnResponse`] holds.
pub struct AddPartitionsToTxnResponseView {
    /// Throttle time in milliseconds.
    pub throttle_time_ms: i32,
    /// Results by topic.
    pub results: Seq<AddPartitionsToTxnTopicResultView>,
}

impl View for AddPartitionsToTxnResponse {
    type V = AddPartitionsToTxnResponseView;

    open spec fn view(&self) -> AddPartitionsToTxnResponseView {
        AddPartitionsToTxnResponseView {
            throttle_time_ms: self.throttle_time_ms,
            results: views(self.results@),
        }
    }
}

impl WireDecode for AddPartitionsToTxnResponse {
    open spec fn read(f: Format, r: Reader) -> (AddPartitionsToTxnResponseView, Reader) {
        let (throttle_time_ms, r) = r.i32();
        let (results, r) = r.array::<AddPartitionsToTxnTopicResult>(f);
        let value = AddPartitionsToTxnResponseView {
            throttle_time_ms,
            results,
        };
        (value, r)
    }

    fn decode_wire(f: Format, buf: &mut Bytes) -> (res: Result<Self>) {
        let throttle_time_ms = read_i32(buf)?;
        let results = read_array::<AddPartitionsToTxnTopicResult>(f, buf)?;
        Ok(AddPartitionsToTxnResponse {
            throttle_time_ms,
            results,
        })
    }

    proof fn law_consumes(f: Format, r: Reader) {
        broadcast use group_consumes;

    }

    proof fn law_ignores_what_follows(f: Format, r: Reader, more: Seq<u8>) {
        broadcast use group_consumes, group_followed;

    }

    proof fn law_needs_only_what_it_takes(f: Format, r: Reader, k: nat) {
        broadcast use group_consumes, group_cut;

    }
}

impl AddPartitionsToTxnResponse {
    /// Decode from version 0.
    pub fn decode_v0(buf: &mut Bytes) -> (res: Result<Self>)
        ensures
            decoded(
                result_view(res),
                final(buf)@,
                Self::read(Format::plain(0), Reader::on(old(buf)@)),
            ),
    {
        Self::decode_wire(Format::plain(0), buf)
    }
}

impl AddPartitionsToTxnResponse {
    /// Check if all partitions were added successfully.
    pub fn is_ok(&self) -> (r: bool)
        ensures
            r == (forall|i: int, j: int|
                0 <= i < self.results@.len() && 0 <= j < self.results@[i].partitions@.len() ==> (
                #[trigger] self.results@[i].partitions@[j]).error_code == ErrorCode::NoError),
    {
        let mut i: usize = 0;
        while i < self.results.len()
            invariant
                i <= self.results@.len(),
                forall|k: int, j: int|
                    0 <= k < i && 0 <= j < self.results@[k].partitions@.len() ==> (
                    #[trigger] self.results@[k].partitions@[j]).error_code == ErrorCode::NoError,
            decreases self.results@.len() - i,
        {
            let mut j: usize = 0;
            while j < self.results[i].partitions.len()
                invariant
                    i < self.results@.len(),
                    j <= self.results@[i as int].partitions@.len(),
                    forall|k: int|
                        0 <= k < j ==> (#[trigger] self.results@[i as int].partitions@[k]).error_code
                            == ErrorCode::NoError,
                decreases self.results@[i as int].partitions@.len() - j,
            {
                if !self.results[i].partitions[j].error_code.is_ok() {
                    assert(self.results@[i as int].partitions@[j as int].error_code
                        != ErrorCode::NoError);
                    return false;
                }
                j = j + 1;
            }
            i = i + 1;
        }
        true
    }
}

impl VersionedEncode for AddPartitionsToTxnRequest {
    open spec fn request_key() -> ApiKey {
        ApiKey::AddPartitionsToTxn
    }

    open spec fn encodes(version: i16) -> bool {
        version == 0
    }

    open spec fn request_format(version: i16) -> Format {
        Format::plain(0)
    }

    open spec fn request_name() -> &'static str {
        "AddPartitionsToTxnRequest"
    }

    fn encode_versioned(&self, version: i16, buf: &mut BytesMut) -> (res: Result<()>) {
        match version {
            0 => self.encode_v0(buf),
            _ => Err(
                KrafkaError::Protocol(
                    ProtocolErrorKind::Malformed,
                    Reason::UnsupportedEncode("AddPartitionsToTxnRequest", version),
                ),
            ),
        }
    }

    proof fn law_request_format(&self, version: i16, w: Writer) {
    }

    proof fn law_unsupported_encode(&self, version: i16, w: Writer) {
    }
}

impl VersionedDecode for AddPartitionsToTxnResponse {
    open spec fn response_key() -> ApiKey {
        ApiKey::AddPartitionsToTxn
    }

    open spec fn decodes(version: i16) -> bool {
        version == 0
    }

    open spec fn response_format(version: i16) -> Format {
        Format::plain(0)
    }

    open spec fn response_name() -> &'static str {
        "AddPartitionsToTxnResponse"
    }

    fn decode_versioned(version: i16, buf: &mut Bytes) -> (res: Result<Self>) {
        match version {
            0 => Self::decode_v0(buf),
            _ => Err(
                KrafkaError::Protocol(
                    ProtocolErrorKind::Malformed,
                    Reason::UnsupportedDecode("AddPartitionsToTxnResponse", version),
                ),
            ),
        }
    }

    proof fn law_response_format(version: i16, r: Reader) {
    }

    proof fn law_unsupported_decode(version: i16, r: Reader) {
    }
}

/// AddOffsetsToTxn request (API Key 25).
///
/// Adds consumer group offsets to a transaction.
#[derive(Debug, Clone)]
pub struct AddOffsetsToTxnRequest {
    /// Transactional ID.
    pub transactional_id: String,
    /// Producer ID.
    pub producer_id: i64,
    /// Producer epoch.
    pub producer_epoch: i16,
    /// Consumer group ID.
    pub group_id: String,
}

impl AddOffsetsToTxnRequest {
    /// Create a new request.
    pub fn new(
        transactional_id: &str,
        producer_id: i64,
        producer_epoch: i16,
        group_id: &str,
    ) -> (r: Self)
        ensures
            r.transactional_id@ == transactional_id@,
            r.producer_id == producer_id,
            r.producer_epoch == producer_epoch,
            r.group_id@ == group_id@,
    {
        AddOffsetsToTxnRequest {
            transactional_id: transactional_id.to_owned(),
            producer_id,
            producer_epoch,
            group_id: group_id.to_owned(),
        }
    }
}

impl WireEncode for AddOffsetsToTxnRequest {
    open spec fn written(&self, f: Format, w: Writer) -> Writer {
        let w = w.string(self.transactional_id@, f.flexible);
        let w = w.i64(self.producer_id);
        let w = w.i16(self.producer_epoch);
        w.string(self.group_id@, f.flexible)
    }

    proof fn lemma_grows(&self, f: Format, w: Writer) {
        broadcast use group_grows;

    }

    proof fn law_appends(&self, f: Format, w: Writer) {
        broadcast use group_appends;

    }

    fn encode_wire(&self, f: Format, buf: &mut BytesMut) -> (res: Result<()>) {
        broadcast use group_grows;

        write_string(self.transactional_id.as_str(), f.flexible, buf)?;
        write_i64(self.producer_id, buf);
        write_i16(self.producer_epoch, buf);
        write_string(self.group_id.as_str(), f.flexible, buf)?;
        Ok(())
    }
}

impl AddOffsetsToTxnRequest {
    /// Encode as version 0.
    pub fn encode_v0(&self, buf: &mut BytesMut) -> (res: Result<()>)
        requires
            fits(self.written(Format::plain(0), Writer::at(old(buf)@))),
        ensures
            encoded(res, final(buf)@, self.written(Format::plain(0), Writer::at(old(buf)@))),
    {
        self.encode_wire(Format::plain(0), buf)
    }
}

/// AddOffsetsToTxn response.
#[derive(Debug, Clone)]
pub struct AddOffsetsToTxnResponse {
    /// Throttle time in milliseconds.
    pub throttle_time_ms: i32,
    /// Error code.
    pub error_code: ErrorCode,
}

impl View for AddOffsetsToTxnResponse {
    type V = AddOffsetsToTxnResponse;

    open spec fn view(&self) -> AddOffsetsToTxnResponse {
        *self
    }
}

impl WireDecode for AddOffsetsToTxnResponse {
    open spec fn read(f: Format, r: Reader) -> (AddOffsetsToTxnResponse, Reader) {
        let (throttle_time_ms, r) = r.i32();
        let (error_code, r) = r.error_code();
        let value = AddOffsetsToTxnResponse {
            throttle_time_ms,
            error_code,
        };
        (value, r)
    }

    fn decode_wire(f: Format, buf: &mut Bytes) -> (res: Result<Self>) {
        let throttle_time_ms = read_i32(buf)?;
        let error_code = read_error_code(buf)?;
        Ok(AddOffsetsToTxnResponse {
            throttle_time_ms,
            error_code,
        })
    }

    proof fn law_consumes(f: Format, r: Reader) {
        broadcast use group_consumes;

    }

    proof fn law_ignores_what_follows(f: Format, r: Reader, more: Seq<u8>) {
        broadcast use group_consumes, group_followed;

    }

    proof fn law_needs_only_what_it_takes(f: Format, r: Reader, k: nat) {
        broadcast use group_consumes, group_cut;

    }
}

impl AddOffsetsToTxnResponse {
    /// Decode from version 0.
    pub fn decode_v0(buf: &mut Bytes) -> (res: Result<Self>)
        ensures
            decoded(
                result_view(res),
                final(buf)@,
                Self::read(Format::plain(0), Reader::on(old(buf)@)),
            ),
    {
        Self::decode_wire(Format::plain(0), buf)
    }
}

impl AddOffsetsToTxnResponse {
    /// Check if successful.
    pub fn is_ok(&self) -> (r: bool)
        ensures
            r == (self.error_code == ErrorCode::NoError),
    {
        self.error_code.is_ok()
    }
}

impl VersionedEncode for AddOffsetsToTxnRequest {
    open spec fn request_key() -> ApiKey {
        ApiKey::AddOffsetsToTxn
    }

    open spec fn encodes(version: i16) -> bool {
        version == 0
    }

    open spec fn request_format(version: i16) -> Format {
        Format::plain(0)
    }

    open spec fn request_name() -> &'static str {
        "AddOffsetsToTxnRequest"
    }

    fn encode_versioned(&self, version: i16, buf: &mut BytesMut) -> (res: Result<()>) {
        match version {
            0 => self.encode_v0(buf),
            _ => Err(
                KrafkaError::Protocol(
                    ProtocolErrorKind::Malformed,
                    Reason::UnsupportedEncode("AddOffsetsToTxnRequest", version),
                ),
            ),
        }
    }

    proof fn law_request_format(&self, version: i16, w: Writer) {
    }

    proof fn law_unsupported_encode(&self, version: i16, w: Writer) {
    }
}

impl VersionedDecode for AddOffsetsToTxnResponse {
    open spec fn response_key() -> ApiKey {
        ApiKey::AddOffsetsToTxn
    }

    open spec fn decodes(version: i16) -> bool {
        version == 0
    }

    open spec fn response_format(version: i16) -> Format {
        Format::plain(0)
    }

    open spec fn response_name() -> &'static str {
        "AddOffsetsToTxnResponse"
    }

    fn decode_versioned(version: i16, buf: &mut Bytes) -> (res: Result<Self>) {
        match version {
            0 => Self::decode_v0(buf),
            _ => Err(
                KrafkaError::Protocol(
                    ProtocolErrorKind::Malformed,
                    Reason::UnsupportedDecode("AddOffsetsToTxnResponse", version),
                ),
            ),
        }
    }

    proof fn law_response_format(version: i16, r: Reader) {
    }

    proof fn law_unsupported_decode(version: i16, r: Reader) {
    }
}

/// EndTxn request (API Key 26).
///
/// Commits or aborts a transaction.
#[derive(Debug, Clone)]
pub struct EndTxnRequest {
    /// Transactional ID.
    pub transactional_id: String,
    /// Producer ID.
    pub producer_id: i64,
    /// Producer epoch.
    pub producer_epoch: i16,
    /// Whether to commit (true) or abort (false).
    pub committed: bool,
}

impl EndTxnRequest {
    /// Create a commit request.
    pub fn commit(transactional_id: &str, producer_id: i64, producer_epoch: i16) -> (r: Self)
        ensures
            r.transactional_id@ == transactional_id@,
            r.producer_id == producer_id,
            r.producer_epoch == producer_epoch,
            r.committed,
    {
        EndTxnRequest {
            transactional_id: transactional_id.to_owned(),
            producer_id,
            producer_epoch,
            committed: true,
        }
    }
}

impl EndTxnRequest {
    /// Create an abort request.
    pub fn abort(transactional_id: &str, producer_id: i64, producer_epoch: i16) -> (r: Self)
        ensures
            r.transactional_id@ == transactional_id@,
            r.producer_id == producer_id,
            r.producer_epoch == producer_epoch,
            !r.committed,
    {
        EndTxnRequest {
            transactional_id: transactional_id.to_owned(),
            producer_id,
            producer_epoch,
            committed: false,
        }
    }
}

impl WireEncode for EndTxnRequest {
    open spec fn written(&self, f: Format, w: Writer) -> Writer {
        let w = w.string(self.transactional_id@, f.flexible);
        let w = w.i64(self.producer_id);
        let w = w.i16(self.producer_epoch);
        w.bool(self.committed)
    }

    proof fn lemma_grows(&self, f: Format, w: Writer) {
        broadcast use group_grows;

    }

    proof fn law_appends(&self, f: Format, w: Writer) {
        broadcast use group_appends;

    }

    fn encode_wire(&self, f: Format, buf: &mut BytesMut) -> (res: Result<()>) {
        broadcast use group_grows;

        write_string(self.transactional_id.as_str(), f.flexible, buf)?;
        write_i64(self.producer_id, buf);
        write_i16(self.producer_epoch, buf);
        write_bool(self.committed, buf);
        Ok(())
    }
}

impl EndTxnRequest {
    /// Encode as version 0.
    pub fn encode_v0(&self, buf: &mut BytesMut) -> (res: Result<()>)
        requires
            fits(self.written(Format::plain(0), Writer::at(old(buf)@))),
        ensures
            encoded(res, final(buf)@, self.written(Format::plain(0), Writer::at(old(buf)@))),
    {
        self.encode_wire(Format::plain(0), buf)
    }
}

/// EndTxn response.
#[derive(Debug, Clone)]
pub struct EndTxnResponse {
    /// Throttle time in milliseconds.
    pub throttle_time_ms: i32,
    /// Error code.
    pub error_code: ErrorCode,
}

impl View for EndTxnResponse {
    type V = EndTxnResponse;

    open spec fn view(&self) -> EndTxnResponse {
        *self
    }
}

impl WireDecode for EndTxnResponse {
    open spec fn read(f: Format, r: Reader) -> (EndTxnResponse, Reader) {
        let (throttle_time_ms, r) = r.i32();
        let (error_code, r) = r.error_code();
        let value = EndTxnResponse {
            throttle_time_ms,
            error_code,
        };
        (value, r)
    }

    fn decode_wire(f: Format, buf: &mut Bytes) -> (res: Result<Self>) {
        let throttle_time_ms = read_i32(buf)?;
        let error_code = read_error_code(buf)?;
        Ok(EndTxnResponse {
            throttle_time_ms,
            error_code,
        })
    }

    proof fn law_consumes(f: Format, r: Reader) {
        broadcast use group_consumes;

    }

    proof fn law_ignores_what_follows(f: Format, r: Reader, more: Seq<u8>) {
        broadcast use group_consumes, group_followed;

    }

    proof fn law_needs_only_what_it_takes(f: Format, r: Reader, k: nat) {
        broadcast use group_consumes, group_cut;

    }
}

impl EndTxnResponse {
    /// Decode from version 0.
    pub fn decode_v0(buf: &mut Bytes) -> (res: Result<Self>)
        ensures
            decoded(
                result_view(res),
                final(buf)@,
                Self::read(Format::plain(0), Reader::on(old(buf)@)),
            ),
    {
        Self::decode_wire(Format::plain(0), buf)
    }
}

impl EndTxnResponse {
    /// Check if successful.
    pub fn is_ok(&self) -> (r: bool)
        ensures
            r == (self.error_code == ErrorCode::NoError),
    {
        self.error_code.is_ok()
    }
}

impl VersionedEncode for EndTxnRequest {
    open spec fn request_key() -> ApiKey {
        ApiKey::EndTxn
    }

    open spec fn encodes(version: i16) -> bool {
        version == 0
    }

    open spec fn request_format(version: i16) -> Format {
        Format::plain(0)
    }

    open spec fn request_name() -> &'static str {
        "EndTxnRequest"
    }

    fn encode_versioned(&self, version: i16, buf: &mut BytesMut) -> (res: Result<()>) {
        match version {
            0 => self.encode_v0(buf),
            _ => Err(
                KrafkaError::Protocol(
                    ProtocolErrorKind::Malformed,
                    Reason::UnsupportedEncode("EndTxnRequest", version),
                ),
            ),
        }
    }

    proof fn law_request_format(&self, version: i16, w: Writer) {
    }

    proof fn law_unsupported_encode(&self, version: i16, w: Writer) {
    }
}

impl VersionedDecode for EndTxnResponse {
    open spec fn response_key() -> ApiKey {
        ApiKey::EndTxn
    }

    open spec fn decodes(version: i16) -> bool {
        version == 0
    }

    open spec fn response_format(version: i16) -> Format {
        Format::plain(0)
    }

    open spec fn response_name() -> &'static str {
        "EndTxnResponse"
    }

    fn decode_versioned(version: i16, buf: &mut Bytes) -> (res: Result<Self>) {
        match version {
            0 => Self::decode_v0(buf),
            _ => Err(
                KrafkaError::Protocol(
                    ProtocolErrorKind::Malformed,
                    Reason::UnsupportedDecode("EndTxnResponse", version),
                ),
            ),
        }
    }

    proof fn law_response_format(version: i16, r: Reader) {
    }

    proof fn law_unsupported_decode(version: i16, r: Reader) {
    }
}

/// TxnOffsetCommit request (API Key 28).
///
/// Commits offsets as part of a transaction.
#[derive(Debug, Clone)]
pub struct TxnOffsetCommitRequest {
    /// Transactional ID.
    pub transactional_id: String,
    /// Consumer group ID.
    pub group_id: String,
    /// Producer ID.
    pub producer_id: i64,
    /// Producer epoch.
    pub producer_epoch: i16,
    /// Offsets to commit by topic.
    pub topics: Vec<TxnOffsetCommitTopic>,
}

impl TxnOffsetCommitRequest {
    /// Create a new request.
    pub fn new(
        transactional_id: &str,
        group_id: &str,
        producer_id: i64,
        producer_epoch: i16,
    ) -> (r: Self)
        ensures
            r.transactional_id@ == transactional_id@,
            r.group_id@ == group_id@,
            r.producer_id == producer_id,
            r.producer_epoch == producer_epoch,
            r.topics@.len() == 0,
    {
        TxnOffsetCommitRequest {
            transactional_id: transactional_id.to_owned(),
            group_id: group_id.to_owned(),
            producer_id,
            producer_epoch,
            topics: Vec::new(),
        }
    }
}

/// Topic in TxnOffsetCommit request.
#[derive(Debug, Clone)]
pub struct TxnOffsetCommitTopic {
    /// Topic name.
    pub name: String,
    /// Partitions with offsets.
    pub partitions: Vec<TxnOffsetCommitPartition>,
}

/// What a [`TxnOffsetCommitTopic`] holds.
pub struct TxnOffsetCommitTopicView {
    /// Topic name.
    pub name: Seq<char>,
    /// Partitions with offsets.
    pub partitions: Seq<TxnOffsetCommitPartitionView>,
}

impl View for TxnOffsetCommitTopic {
    type V = TxnOffsetCommitTopicView;

    open spec fn view(&self) -> TxnOffsetCommitTopicView {
        TxnOffsetCommitTopicView {
            name: self.name@,
            partitions: views(self.partitions@),
        }
    }
}

/// Partition offset in TxnOffsetCommit request.
#[derive(Debug, Clone)]
pub struct TxnOffsetCommitPartition {
    /// Partition index.
    pub partition: i32,
    /// Offset to commit.
    pub committed_offset: i64,
    /// Leader epoch (optional, -1 if not used).
    pub committed_leader_epoch: i32,
    /// Metadata.
    pub metadata: Option<String>,
}

/// What a [`TxnOffsetCommitPartition`] holds.
pub struct TxnOffsetCommitPartitionView {
    /// Partition index.
    pub partition: i32,
    /// Offset to commit.
    pub committed_offset: i64,
    /// Leader epoch (optional, -1 if not used).
    pub committed_leader_epoch: i32,
    /// Metadata.
    pub metadata: Option<Seq<char>>,
}

impl View for TxnOffsetCommitPartition {
    type V = TxnOffsetCommitPartitionView;

    open spec fn view(&self) -> TxnOffsetCommitPartitionView {
        TxnOffsetCommitPartitionView {
            partition: self.partition,
            committed_offset: self.committed_offset,
            committed_leader_epoch: self.committed_leader_epoch,
            metadata: optional_text(self.metadata),
        }
    }
}

impl WireEncode for TxnOffsetCommitPartition {
    open spec fn written(&self, f: Format, w: Writer) -> Writer {
        let w = w.i32(self.partition);
        let w = w.i64(self.committed_offset);
        let w = if f.version >= 2 {
            w.i32(self.committed_leader_epoch)
        } else {
            w
        };
        w.nullable_string(optional_text(self.metadata), f.flexible)
    }

    proof fn lemma_grows(&self, f: Format, w: Writer) {
        broadcast use group_grows;

    }

    proof fn law_appends(&self, f: Format, w: Writer) {
        broadcast use group_appends;

    }

    fn encode_wire(&self, f: Format, buf: &mut BytesMut) -> (res: Result<()>) {
        broadcast use group_grows;

        write_i32(self.partition, buf);
        write_i64(self.committed_offset, buf);
        if f.version >= 2 {
            write_i32(self.committed_leader_epoch, buf);
        }
        write_nullable_string(&self.metadata, f.flexible, buf)?;
        Ok(())
    }
}

impl WireEncode for TxnOffsetCommitTopic {
    open spec fn written(&self, f: Format, w: Writer) -> Writer {
        let w = w.string(self.name@, f.flexible);
        w.array(self.partitions@, f)
    }

    proof fn lemma_grows(&self, f: Format, w: Writer) {
        broadcast use group_grows;

    }

    proof fn law_appends(&self, f: Format, w: Writer) {
        broadcast use group_appends;

    }

    fn encode_wire(&self, f: Format, buf: &mut BytesMut) -> (res: Result<()>) {
        broadcast use group_grows;

        write_string(self.name.as_str(), f.flexible, buf)?;
        write_array(&self.partitions, f, buf)?;
        Ok(())
    }
}

impl WireEncode for TxnOffsetCommitRequest {
    open spec fn written(&self, f: Format, w: Writer) -> Writer {
        let w = w.string(self.transactional_id@, f.flexible);
        let w = w.string(self.group_id@, f.flexible);
        let w = w.i64(self.producer_id);
        let w = w.i16(self.producer_epoch);
        w.array(self.topics@, f)
    }

    proof fn lemma_grows(&self, f: Format, w: Writer) {
        broadcast use group_grows;

    }

    proof fn law_appends(&self, f: Format, w: Writer) {
        broadcast use group_appends;

    }

    fn encode_wire(&self, f: Format, buf: &mut BytesMut) -> (res: Result<()>) {
        broadcast use group_grows;

        write_string(self.transactional_id.as_str(), f.flexible, buf)?;
        write_string(self.group_id.as_str(), f.flexible, buf)?;
        write_i64(self.producer_id, buf);
        write_i16(self.producer_epoch, buf);
        write_array(&self.topics, f, buf)?;
        Ok(())
    }
}

/// The index of the first topic with a name, from `from` on, or the number of
/// topics where there is none.
pub open spec fn first_commit_topic(
    topics: Seq<TxnOffsetCommitTopicView>,
    name: Seq<char>,
    from: nat,
) -> nat
    decreases topics.len() - from,
{
    if from >= topics.len() {
        topics.len()
    } else if topics[from as int].name == name {
        from
    } else {
        first_commit_topic(topics, name, from + 1)
    }
}

/// The index of the first entry of a partition, from `from` on, or the number of
/// entries where there is none.
pub open spec fn first_commit_partition(
    partitions: Seq<TxnOffsetCommitPartitionView>,
    partition: i32,
    from: nat,
) -> nat
    decreases partitions.len() - from,
{
    if from >= partitions.len() {
        partitions.len()
    } else if partitions[from as int].partition == partition {
        from
    } else {
        first_commit_partition(partitions, partition, from + 1)
    }
}

/// The entries with one more: in place of the first one of that partition, or at
/// the end.
pub open spec fn with_entry(
    partitions: Seq<TxnOffsetCommitPartitionView>,
    entry: TxnOffsetCommitPartitionView,
) -> Seq<TxnOffsetCommitPartitionView> {
    let i = first_commit_partition(partitions, entry.partition, 0);
    if i >= partitions.len() {
        partitions.push(entry)
    } else {
        partitions.update(i as int, entry)
    }
}

/// The topics with one more entry: in the first topic of that name, or in a new
/// topic at the end.
pub open spec fn with_offset(
    topics: Seq<TxnOffsetCommitTopicView>,
    name: Seq<char>,
    entry: TxnOffsetCommitPartitionView,
) -> Seq<TxnOffsetCommitTopicView> {
    let i = first_commit_topic(topics, name, 0);
    if i >= topics.len() {
        topics.push(TxnOffsetCommitTopicView { name, partitions: seq![entry] })
    } else {
        topics.update(
            i as int,
            TxnOffsetCommitTopicView {
                name: topics[i as int].name,
                partitions: with_entry(topics[i as int].partitions, entry),
            },
        )
    }
}

/// Where the first topic of a name stands.
proof fn lemma_first_commit_topic(
    topics: Seq<TxnOffsetCommitTopicView>,
    name: Seq<char>,
    from: nat,
)
    requires
        from <= topics.len(),
    ensures
        ({
            let i = first_commit_topic(topics, name, from);
            &&& from <= i <= topics.len()
            &&& i < topics.len() ==> topics[i as int].name == name
            &&& forall|k: int| from <= k < i ==> (#[trigger] topics[k]).name != name
        }),
    decreases topics.len() - from,
{
    if from < topics.len() && topics[from as int].name != name {
        lemma_first_commit_topic(topics, name, from + 1);
    }
}

/// Where the first entry of a partition stands.
proof fn lemma_first_commit_partition(
    partitions: Seq<TxnOffsetCommitPartitionView>,
    partition: i32,
    from: nat,
)
    requires
        from <= partitions.len(),
    ensures
        ({
            let i = first_commit_partition(partitions, partition, from);
            &&& from <= i <= partitions.len()
            &&& i < partitions.len() ==> partitions[i as int].partition == partition
            &&& forall|k: int| from <= k < i ==> (#[trigger] partitions[k]).partition != partition
        }),
    decreases partitions.len() - from,
{
    if from < partitions.len() && partitions[from as int].partition != partition {
        lemma_first_commit_partition(partitions, partition, from + 1);
    }
}

/// Adding an offset leaves every topic in its place with its name, and every entry of
/// another partition in its place. The entry takes the place of the first one of its
/// partition in the first topic of its name, or goes behind the others there, or into
/// a new topic behind the others.
pub proof fn law_adding_an_offset(
    topics: Seq<TxnOffsetCommitTopicView>,
    name: Seq<char>,
    entry: TxnOffsetCommitPartitionView,
    i: nat,
    j: nat,
)
    requires
        i <= topics.len(),
        forall|k: int| 0 <= k < i ==> (#[trigger] topics[k]).name != name,
        i < topics.len() ==> {
            let entries = topics[i as int].partitions;
            &&& topics[i as int].name == name
            &&& j <= entries.len()
            &&& forall|k: int| 0 <= k < j ==> (#[trigger] entries[k]).partition != entry.partition
            &&& j < entries.len() ==> entries[j as int].partition == entry.partition
        },
    ensures
        ({
            let after = with_offset(topics, name, entry);
            &&& forall|k: int|
                0 <= k < topics.len() && k != i ==> #[trigger] after[k] == topics[k]
            &&& i == topics.len() ==> {
                &&& after.len() == topics.len() + 1
                &&& after.last().name == name
                &&& after.last().partitions == seq![entry]
            }
            &&& i < topics.len() ==> {
                let entries = topics[i as int].partitions;
                &&& after.len() == topics.len()
                &&& after[i as int].name == name
                &&& after[i as int].partitions == (if j < entries.len() {
                    entries.update(j as int, entry)
                } else {
                    entries.push(entry)
                })
            }
        }),
{
    lemma_first_commit_topic(topics, name, 0);
    let found = first_commit_topic(topics, name, 0);
    if found < i {
        assert(topics[found as int].name != name);
    }
    if i < found {
        assert(topics[i as int].name != name);
    }
    if i < topics.len() {
        let entries = topics[i as int].partitions;
        lemma_first_commit_partition(entries, entry.partition, 0);
        let first = first_commit_partition(entries, entry.partition, 0);
        if first < j {
            assert(entries[first as int].partition != entry.partition);
        }
        if j < first {
            assert(entries[j as int].partition != entry.partition);
        }
    }
}

/// Of two entries for one partition, added one after the other, the later one
/// stays alone.
pub proof fn law_later_offset_replaces_earlier(
    topics: Seq<TxnOffsetCommitTopicView>,
    name: Seq<char>,
    earlier: TxnOffsetCommitPartitionView,
    later: TxnOffsetCommitPartitionView,
)
    requires
        earlier.partition == later.partition,
    ensures
        with_offset(with_offset(topics, name, earlier), name, later) == with_offset(
            topics,
            name,
            later,
        ),
{
    let once = with_offset(topics, name, earlier);
    let i = first_commit_topic(topics, name, 0);
    lemma_first_commit_topic(topics, name, 0);
    lemma_first_commit_topic(once, name, 0);
    assert(once[i as int].name == name);
    assert forall|k: int| 0 <= k < i implies (#[trigger] once[k]).name != name by {
        assert(topics[k].name != name);
    }
    assert(first_commit_topic(once, name, 0) == i);
    let partitions = if i < topics.len() {
        topics[i as int].partitions
    } else {
        Seq::empty()
    };
    assert(i >= topics.len() ==> with_entry(partitions, earlier) =~= seq![earlier]);
    assert(i >= topics.len() ==> with_entry(partitions, later) =~= seq![later]);
    let entries = with_entry(partitions, earlier);
    let j = first_commit_partition(partitions, later.partition, 0);
    lemma_first_commit_partition(partitions, later.partition, 0);
    lemma_first_commit_partition(entries, later.partition, 0);
    assert(entries[j as int].partition == later.partition);
    assert forall|k: int| 0 <= k < j implies (#[trigger] entries[k]).partition
        != later.partition by {
        assert(partitions[k].partition != later.partition);
    }
    assert(first_commit_partition(entries, later.partition, 0) == j);
    assert(with_entry(entries, later) =~= with_entry(partitions, later));
    assert(with_offset(once, name, later) =~= with_offset(topics, name, later));
}

impl TxnOffsetCommitRequest {
    /// Add an offset commit for a topic-partition.
    ///
    /// If an entry for the same topic+partition already exists, its offset
    /// and metadata are replaced (last-write-wins).
    pub fn add_offset(
        self,
        topic: &str,
        partition: i32,
        offset: i64,
        metadata: Option<String>,
    ) -> (r: Self)
        ensures
            r.transactional_id == self.transactional_id,
            r.group_id == self.group_id,
            r.producer_id == self.producer_id,
            r.producer_epoch == self.producer_epoch,
            views(r.topics@) == with_offset(
                views(self.topics@),
                topic@,
                (TxnOffsetCommitPartitionView {
                    partition,
                    committed_offset: offset,
                    committed_leader_epoch: (-1) as i32,
                    metadata: optional_text(metadata),
                }),
            ),
    {
        let ghost before = views(self.topics@);
        let name = topic.to_owned();
        let entry = TxnOffsetCommitPartition {
            partition,
            committed_offset: offset,
            committed_leader_epoch: -1,
            metadata,
        };
        let ghost entry_view = entry@;
        let mut topics = self.topics;
        let mut i: usize = 0;
        while i < topics.len()
            invariant
                i <= topics@.len(),
                name@ == topic@,
                views(topics@) == before,
                first_commit_topic(before, topic@, 0) == first_commit_topic(
                    before,
                    topic@,
                    i as nat,
                ),
            ensures
                i <= topics@.len(),
                name@ == topic@,
                views(topics@) == before,
                first_commit_topic(before, topic@, 0) == i,
            decreases topics@.len() - i,
        {
            assert(before[i as int] == topics@[i as int]@);
            if topics[i].name == name {
                break;
            }
            i = i + 1;
        }
        if i < topics.len() {
            let mut found = topics.remove(i);
            assert(before[i as int] == found@);
            let ghost entries = found@.partitions;
            let mut k: usize = 0;
            while k < found.partitions.len()
                invariant
                    k <= found.partitions@.len(),
                    views(found.partitions@) == entries,
                    first_commit_partition(entries, partition, 0) == first_commit_partition(
                        entries,
                        partition,
                        k as nat,
                    ),
                ensures
                    k <= found.partitions@.len(),
                    views(found.partitions@) == entries,
                    first_commit_partition(entries, partition, 0) == k,
                decreases found.partitions@.len() - k,
            {
                assert(entries[k as int] == found.partitions@[k as int]@);
                if found.partitions[k].partition == partition {
                    break;
                }
                k = k + 1;
            }
            if k < found.partitions.len() {
                found.partitions.set(k, entry);
            } else {
                found.partitions.push(entry);
            }
            assert(found@.partitions =~= with_entry(entries, entry_view));
            topics.insert(i, found);
        } else {
            let mut partitions: Vec<TxnOffsetCommitPartition> = Vec::new();
            partitions.push(entry);
            let added = TxnOffsetCommitTopic { name, partitions };
            assert(added@.partitions =~= seq![entry_view]);
            topics.push(added);
        }
        assert(views(topics@) =~= with_offset(before, topic@, entry_view));
        TxnOffsetCommitRequest {
            transactional_id: self.transactional_id,
            group_id: self.group_id,
            producer_id: self.producer_id,
            producer_epoch: self.producer_epoch,
            topics,
        }
    }
}

impl TxnOffsetCommitRequest {
    /// Encode as version 0.
    pub fn encode_v0(&self, buf: &mut BytesMut) -> (res: Result<()>)
        requires
            fits(self.written(Format::plain(0), Writer::at(old(buf)@))),
        ensures
            encoded(res, final(buf)@, self.written(Format::plain(0), Writer::at(old(buf)@))),
    {
        self.encode_wire(Format::plain(0), buf)
    }

    /// Encode as version 2 (with leader epoch).
    pub fn encode_v2(&self, buf: &mut BytesMut) -> (res: Result<()>)
        requires
            fits(self.written(Format::plain(2), Writer::at(old(buf)@))),
        ensures
            encoded(res, final(buf)@, self.written(Format::plain(2), Writer::at(old(buf)@))),
    {
        self.encode_wire(Format::plain(2), buf)
    }
}

/// Result for a partition in TxnOffsetCommit.
#[derive(Debug, Clone)]
pub struct TxnOffsetCommitPartitionResult {
    /// Partition index.
    pub partition: i32,
    /// Error code.
    pub error_code: ErrorCode,
}

impl View for TxnOffsetCommitPartitionResult {
    type V = TxnOffsetCommitPartitionResult;

    open spec fn view(&self) -> TxnOffsetCommitPartitionResult {
        *self
    }
}

impl WireDecode for TxnOffsetCommitPartitionResult {
    open spec fn read(f: Format, r: Reader) -> (TxnOffsetCommitPartitionResult, Reader) {
        let (partition, r) = r.i32();
        let (error_code, r) = r.error_code();
        let value = TxnOffsetCommitPartitionResult {
            partition,
            error_code,
        };
        (value, r)
    }

    fn decode_wire(f: Format, buf: &mut Bytes) -> (res: Result<Self>) {
        let partition = read_i32(buf)?;
        let error_code = read_error_code(buf)?;
        Ok(TxnOffsetCommitPartitionResult {
            partition,
            error_code,
        })
    }

    proof fn law_consumes(f: Format, r: Reader) {
        broadcast use group_consumes;

    }

    proof fn law_ignores_what_follows(f: Format, r: Reader, more: Seq<u8>) {
        broadcast use group_consumes, group_followed;

    }

    proof fn law_needs_only_what_it_takes(f: Format, r: Reader, k: nat) {
        broadcast use group_consumes, group_cut;

    }
}

/// Result for a topic in TxnOffsetCommit.
#[derive(Debug, Clone)]
pub struct TxnOffsetCommitTopicResult {
    /// Topic name.
    pub name: String,
    /// Partition results.
    pub partitions: Vec<TxnOffsetCommitPartitionResult>,
}

/// What a [`TxnOffsetCommitTopicResult`] holds.
pub struct TxnOffsetCommitTopicResultView {
    /// Topic name.
    pub name: Seq<char>,
    /// Partition results.
    pub partitions: Seq<TxnOffsetCommitPartitionResult>,
}

impl View for TxnOffsetCommitTopicResult {
    type V = TxnOffsetCommitTopicResultView;

    open spec fn view(&self) -> TxnOffsetCommitTopicResultView {
        TxnOffsetCommitTopicResultView {
            name: self.name@,
            partitions: views(self.partitions@),
        }
    }
}

impl WireDecode for TxnOffsetCommitTopicResult {
    open spec fn read(f: Format, r: Reader) -> (TxnOffsetCommitTopicResultView, Reader) {
        let (name, r) = r.string_or_empty(f.flexible);
        let (partitions, r) = r.array::<TxnOffsetCommitPartitionResult>(f);
        let value = TxnOffsetCommitTopicResultView {
            name,
            partitions,
        };
        (value, r)
    }

    fn decode_wire(f: Format, buf: &mut Bytes) -> (res: Result<Self>) {
        let name = read_string_or_empty(f.flexible, buf)?;
        let partitions = read_array::<TxnOffsetCommitPartitionResult>(f, buf)?;
        Ok(TxnOffsetCommitTopicResult {
            name,
            partitions,
        })
    }

    proof fn law_consumes(f: Format, r: Reader) {
        broadcast use group_consumes;

    }

    proof fn law_ignores_what_follows(f: Format, r: Reader, more: Seq<u8>) {
        broadcast use group_consumes, group_followed;

    }

    proof fn law_needs_only_what_it_takes(f: Format, r: Reader, k: nat) {
        broadcast use group_consumes, group_cut;

    }
}

/// TxnOffsetCommit response.
#[derive(Debug, Clone)]
pub struct TxnOffsetCommitResponse {
    /// Throttle time in milliseconds.
    pub throttle_time_ms: i32,
    /// Results by topic.
    pub topics: Vec<TxnOffsetCommitTopicResult>,
}

/// What a [`TxnOffsetCommitResponse`] holds.
pub struct TxnOffsetCommitResponseView {
    /// Throttle time in milliseconds.
    pub throttle_time_ms: i32,
    /// Results by topic.
    pub topics: Seq<TxnOffsetCommitTopicResultView>,
}

impl View for TxnOffsetCommitResponse {
    type V = TxnOffsetCommitResponseView;

    open spec fn view(&self) -> TxnOffsetCommitResponseView {
        TxnOffsetCommitResponseView {
            throttle_time_ms: self.throttle_time_ms,
            topics: views(self.topics@),
        }
    }
}

impl WireDecode for TxnOffsetCommitResponse {
    open spec fn read(f: Format, r: Reader) -> (TxnOffsetCommitResponseView, Reader) {
        let (throttle_time_ms, r) = r.i32();
        let (topics, r) = r.array::<TxnOffsetCommitTopicResult>(f);
        let value = TxnOffsetCommitResponseView {
            throttle_time_ms,
            topics,
        };
        (value, r)
    }

    fn decode_wire(f: Format, buf: &mut Bytes) -> (res: Result<Self>) {
        let throttle_time_ms = read_i32(buf)?;
        let topics = read_array::<TxnOffsetCommitTopicResult>(f, buf)?;
        Ok(TxnOffsetCommitResponse {
            throttle_time_ms,
            topics,
        })
    }

    proof fn law_consumes(f: Format, r: Reader) {
        broadcast use group_consumes;

    }

    proof fn law_ignores_what_follows(f: Format, r: Reader, more: Seq<u8>) {
        broadcast use group_consumes, group_followed;

    }

    proof fn law_needs_only_what_it_takes(f: Format, r: Reader, k: nat) {
        broadcast use group_consumes, group_cut;

    }
}

impl TxnOffsetCommitResponse {
    /// Decode from version 0.
    pub fn decode_v0(buf: &mut Bytes) -> (res: Result<Self>)
        ensures
            decoded(
                result_view(res),
                final(buf)@,
                Self::read(Format::plain(0), Reader::on(old(buf)@)),
            ),
    {
        Self::decode_wire(Format::plain(0), buf)
    }
}

impl TxnOffsetCommitResponse {
    /// Check if all offsets were committed successfully.
    pub fn is_ok(&self) -> (r: bool)
        ensures
            r == (forall|i: int, j: int|
                0 <= i < self.topics@.len() && 0 <= j < self.topics@[i].partitions@.len() ==> (
                #[trigger] self.topics@[i].partitions@[j]).error_code == ErrorCode::NoError),
    {
        let mut i: usize = 0;
        while i < self.topics.len()
            invariant
                i <= self.topics@.len(),
                forall|k: int, j: int|
                    0 <= k < i && 0 <= j < self.topics@[k].partitions@.len() ==> (
                    #[trigger] self.topics@[k].partitions@[j]).error_code == ErrorCode::NoError,
            decreases self.topics@.len() - i,
        {
            let mut j: usize = 0;
            while j < self.topics[i].partitions.len()
                invariant
                    i < self.topics@.len(),
                    j <= self.topics@[i as int].partitions@.len(),
                    forall|k: int|
                        0 <= k < j ==> (#[trigger] self.topics@[i as int].partitions@[k]).error_code
                            == ErrorCode::NoError,
                decreases self.topics@[i as int].partitions@.len() - j,
            {
                if !self.topics[i].partitions[j].error_code.is_ok() {
                    assert(self.topics@[i as int].partitions@[j as int].error_code
                        != ErrorCode::NoError);
                    return false;
                }
                j = j + 1;
            }
            i = i + 1;
        }
        true
    }
}

impl VersionedEncode for TxnOffsetCommitRequest {
    open spec fn request_key() -> ApiKey {
        ApiKey::TxnOffsetCommit
    }

    open spec fn encodes(version: i16) -> bool {
        version == 0
    }

    open spec fn request_format(version: i16) -> Format {
        Format::plain(0)
    }

    open spec fn request_name() -> &'static str {
        "TxnOffsetCommitRequest"
    }

    fn encode_versioned(&self, version: i16, buf: &mut BytesMut) -> (res: Result<()>) {
        match version {
            0 => self.encode_v0(buf),
            _ => Err(
                KrafkaError::Protocol(
                    ProtocolErrorKind::Malformed,
                    Reason::UnsupportedEncode("TxnOffsetCommitRequest", version),
                ),
            ),
        }
    }

    proof fn law_request_format(&self, version: i16, w: Writer) {
    }

    proof fn law_unsupported_encode(&self, version: i16, w: Writer) {
    }
}

impl VersionedDecode for TxnOffsetCommitResponse {
    open spec fn response_key() -> ApiKey {
        ApiKey::TxnOffsetCommit
    }

    open spec fn decodes(version: i16) -> bool {
        version == 0
    }

    open spec fn response_format(version: i16) -> Format {
        Format::plain(0)
    }

    open spec fn response_name() -> &'static str {
        "TxnOffsetCommitResponse"
    }

    fn decode_versioned(version: i16, buf: &mut Bytes) -> (res: Result<Self>) {
        match version {
            0 => Self::decode_v0(buf),
            _ => Err(
                KrafkaError::Protocol(
                    ProtocolErrorKind::Malformed,
                    Reason::UnsupportedDecode("TxnOffsetCommitResponse", version),
                ),
            ),
        }
    }

    proof fn law_response_format(version: i16, r: Reader) {
    }

    proof fn law_unsupported_decode(version: i16, r: Reader) {
    }
}

} // verus!
