//! Metadata request and response.

use crate::buffer::Octets;
use crate::error::{ErrorCode, KrafkaError, ProtocolErrorKind, Reason, Result};
use crate::protocol::api::ApiKey;
use crate::protocol::messages::{VersionedDecode, VersionedEncode};
use crate::protocol::wire::{
    decoded, encoded, fits, group_appends, group_consumes, group_cut, group_followed, group_grows,
    malformed, no_items, optional_id, optional_text, read_array_or_empty, read_bool,
    read_error_code, read_i32, read_nullable_string, read_string_or_empty, result_view, views,
    write_array, write_array_len, write_bool, write_null_array, write_string, Format, Reader,
    WireDecode, WireEncode, Writer,
};
use bytes::{Bytes, BytesMut};
use vstd::prelude::*;

verus! {

/// Metadata request.
#[derive(Debug, Clone)]
pub struct MetadataRequest {
    /// Topics to fetch metadata for. Null means all topics.
    pub topics: Option<Vec<MetadataRequestTopic>>,
    /// Whether to allow auto topic creation (v4+).
    pub allow_auto_topic_creation: bool,
}

impl Default for MetadataRequest {
    fn default() -> (r: Self)
        ensures
            r.topics is None,
            !r.allow_auto_topic_creation,
    {
        MetadataRequest {
            topics: None,
            allow_auto_topic_creation: false,
        }
    }
}

/// Topic in metadata request.
#[derive(Debug, Clone)]
pub struct MetadataRequestTopic {
    /// Topic ID (v10+).
    pub topic_id: Option<[u8; 16]>,
    /// Topic name.
    pub name: Option<String>,
}

/// The error of a topic without a name, which no version here can ask for.
pub open spec fn nameless_topic() -> KrafkaError {
    malformed("MetadataRequestTopic.name is required for v0-v8")
}

/// Whether every topic has a name.
pub open spec fn all_named(topics: Seq<MetadataRequestTopic>) -> bool {
    forall|i: int| 0 <= i < topics.len() ==> (#[trigger] topics[i]).name is Some
}

impl WireEncode for MetadataRequestTopic {
    open spec fn written(&self, f: Format, w: Writer) -> Writer {
        match self.name {
            Some(name) => w.string(name@, f.flexible),
            None => w.raise(nameless_topic()),
        }
    }

    proof fn lemma_grows(&self, f: Format, w: Writer) {
        broadcast use group_grows;

    }

    proof fn law_appends(&self, f: Format, w: Writer) {
        broadcast use group_appends;

    }

    fn encode_wire(&self, f: Format, buf: &mut BytesMut) -> (res: Result<()>) {
        broadcast use group_grows;

        match &self.name {
            Some(name) => write_string(name.as_str(), f.flexible, buf),
            None => Err(KrafkaError::protocol("MetadataRequestTopic.name is required for v0-v8")),
        }
    }
}

impl WireEncode for MetadataRequest {
    /// All topics are asked for by an empty array in version 0 and by none at all
    /// from version 1 on. Where a topic has no name, nothing is written.
    open spec fn written(&self, f: Format, w: Writer) -> Writer {
        let w = match self.topics {
            None => if f.version == 0 {
                w.array_len(0, f.flexible)
            } else {
                w.null_array(f.flexible)
            },
            Some(topics) => if all_named(topics@) {
                w.array(topics@, f)
            } else {
                w.raise(nameless_topic())
            },
        };
        let w = if f.version >= 4 {
            w.bool(self.allow_auto_topic_creation)
        } else {
            w
        };
        if f.version >= 8 {
            w.bool(false).bool(false)
        } else {
            w
        }
    }

    proof fn lemma_grows(&self, f: Format, w: Writer) {
        broadcast use group_grows;

    }

    proof fn law_appends(&self, f: Format, w: Writer) {
        broadcast use group_appends;

    }

    fn encode_wire(&self, f: Format, buf: &mut BytesMut) -> (res: Result<()>) {
        broadcast use group_grows;

        match &self.topics {
            None => {
                if f.version == 0 {
                    write_array_len(0, f.flexible, buf)?;
                } else {
                    write_null_array(f.flexible, buf);
                }
            },
            Some(topics) => {
                let mut i: usize = 0;
                while i < topics.len()
                    invariant
                        i <= topics@.len(),
                        forall|k: int| 0 <= k < i ==> (#[trigger] topics@[k]).name is Some,
                        buf@ == old(buf)@,
                        self.topics == Some(*topics),
                    decreases topics@.len() - i,
                {
                    if topics[i].name.is_none() {
                        assert(topics@[i as int].name is None);
                        return Err(
                            KrafkaError::protocol(
                                "MetadataRequestTopic.name is required for v0-v8",
                            ),
                        );
                    }
                    i = i + 1;
                }
                write_array(topics, f, buf)?;
            },
        }
        if f.version >= 4 {
            write_bool(self.allow_auto_topic_creation, buf);
        }
        if f.version >= 8 {
            write_bool(false, buf);
            write_bool(false, buf);
        }
        Ok(())
    }
}

impl MetadataRequest {
    /// Create a request for all topics.
    pub fn all_topics() -> (r: Self)
        ensures
            r.topics is None,
            !r.allow_auto_topic_creation,
    {
        MetadataRequest { topics: None, allow_auto_topic_creation: false }
    }

    /// Create a request for specific topics.
    pub fn for_topics(topics: Vec<&str>) -> (r: Self)
        ensures
            !r.allow_auto_topic_creation,
            r.topics is Some,
            r.topics->0@.len() == topics@.len(),
            forall|i: int|
                0 <= i < topics@.len() ==> {
                    &&& (#[trigger] r.topics->0@[i]).topic_id is None
                    &&& optional_text(r.topics->0@[i].name) == Some(topics@[i]@)
                },
    {
        let mut wanted: Vec<MetadataRequestTopic> = Vec::new();
        let mut i: usize = 0;
        while i < topics.len()
            invariant
                i <= topics@.len(),
                wanted@.len() == i,
                forall|k: int|
                    0 <= k < i ==> {
                        &&& (#[trigger] wanted@[k]).topic_id is None
                        &&& optional_text(wanted@[k].name) == Some(topics@[k]@)
                    },
            decreases topics@.len() - i,
        {
            wanted.push(MetadataRequestTopic { topic_id: None, name: Some(topics[i].to_owned()) });
            i = i + 1;
        }
        MetadataRequest { topics: Some(wanted), allow_auto_topic_creation: false }
    }
}

impl MetadataRequest {
    /// Get the API key.
    pub fn api_key() -> (r: ApiKey)
        ensures
            r == ApiKey::Metadata,
    {
        ApiKey::Metadata
    }
}

impl MetadataRequest {
    /// Encode for version 0 (topics is non-nullable; `None` -> empty array = "all topics").
    pub fn encode_v0(&self, buf: &mut BytesMut) -> (res: Result<()>)
        requires
            fits(self.written(Format::plain(0), Writer::at(old(buf)@))),
        ensures
            encoded(res, final(buf)@, self.written(Format::plain(0), Writer::at(old(buf)@))),
    {
        self.encode_wire(Format::plain(0), buf)
    }

    /// Encode for version 1-3 (topics is nullable; `None` -> null array = "all topics").
    pub fn encode_v1(&self, buf: &mut BytesMut) -> (res: Result<()>)
        requires
            fits(self.written(Format::plain(1), Writer::at(old(buf)@))),
        ensures
            encoded(res, final(buf)@, self.written(Format::plain(1), Writer::at(old(buf)@))),
    {
        self.encode_wire(Format::plain(1), buf)
    }

    /// Encode for version 4-7.
    pub fn encode_v4(&self, buf: &mut BytesMut) -> (res: Result<()>)
        requires
            fits(self.written(Format::plain(4), Writer::at(old(buf)@))),
        ensures
            encoded(res, final(buf)@, self.written(Format::plain(4), Writer::at(old(buf)@))),
    {
        self.encode_wire(Format::plain(4), buf)
    }

    /// Encode for version 8.
    ///
    /// Authorized-operations flags are always encoded as `false` because
    /// `MetadataResponse` does not yet surface the results.
    pub fn encode_v8(&self, buf: &mut BytesMut) -> (res: Result<()>)
        requires
            fits(self.written(Format::plain(8), Writer::at(old(buf)@))),
        ensures
            encoded(res, final(buf)@, self.written(Format::plain(8), Writer::at(old(buf)@))),
    {
        self.encode_wire(Format::plain(8), buf)
    }
}

/// Partition metadata in response.
#[derive(Debug, Clone)]
pub struct MetadataPartitionResponse {
    /// Error code.
    pub error_code: ErrorCode,
    /// Partition ID.
    pub partition_index: i32,
    /// Leader broker ID.
    pub leader_id: i32,
    /// Leader epoch.
    pub leader_epoch: i32,
    /// Replica broker IDs.
    pub replica_nodes: Vec<i32>,
    /// In-sync replica broker IDs.
    pub isr_nodes: Vec<i32>,
    /// Offline replica broker IDs (v5+).
    pub offline_replicas: Vec<i32>,
}

/// What a [`MetadataPartitionResponse`] holds.
pub struct MetadataPartitionResponseView {
    /// Error code.
    pub error_code: ErrorCode,
    /// Partition ID.
    pub partition_index: i32,
    /// Leader broker ID.
    pub leader_id: i32,
    /// Leader epoch.
    pub leader_epoch: i32,
    /// Replica broker IDs.
    pub replica_nodes: Seq<i32>,
    /// In-sync replica broker IDs.
    pub isr_nodes: Seq<i32>,
    /// Offline replica broker IDs (v5+).
    pub offline_replicas: Seq<i32>,
}

impl View for MetadataPartitionResponse {
    type V = MetadataPartitionResponseView;

    open spec fn view(&self) -> MetadataPartitionResponseView {
        MetadataPartitionResponseView {
            error_code: self.error_code,
            partition_index: self.partition_index,
            leader_id: self.leader_id,
            leader_epoch: self.leader_epoch,
            replica_nodes: views(self.replica_nodes@),
            isr_nodes: views(self.isr_nodes@),
            offline_replicas: views(self.offline_replicas@),
        }
    }
}

impl WireDecode for MetadataPartitionResponse {
    open spec fn read(f: Format, r: Reader) -> (MetadataPartitionResponseView, Reader) {
        let (error_code, r) = r.error_code();
        let (partition_index, r) = r.i32();
        let (leader_id, r) = r.i32();
        let (leader_epoch, r) = if f.version >= 7 {
            r.i32()
        } else {
            ((-1) as i32, r)
        };
        let (replica_nodes, r) = r.array_or_empty::<i32>(f);
        let (isr_nodes, r) = r.array_or_empty::<i32>(f);
        let (offline_replicas, r) = if f.version >= 5 {
            r.array_or_empty::<i32>(f)
        } else {
            (Seq::empty(), r)
        };
        let value = MetadataPartitionResponseView {
            error_code,
            partition_index,
            leader_id,
            leader_epoch,
            replica_nodes,
            isr_nodes,
            offline_replicas,
        };
        (value, r)
    }

    fn decode_wire(f: Format, buf: &mut Bytes) -> (res: Result<Self>) {
        let error_code = read_error_code(buf)?;
        let partition_index = read_i32(buf)?;
        let leader_id = read_i32(buf)?;
        let leader_epoch: i32 = if f.version >= 7 {
            read_i32(buf)?
        } else {
            -1
        };
        let replica_nodes = read_array_or_empty::<i32>(f, buf)?;
        let isr_nodes = read_array_or_empty::<i32>(f, buf)?;
        let offline_replicas: Vec<i32> = if f.version >= 5 {
            read_array_or_empty::<i32>(f, buf)?
        } else {
            no_items()
        };
        Ok(MetadataPartitionResponse {
            error_code,
            partition_index,
            leader_id,
            leader_epoch,
            replica_nodes,
            isr_nodes,
            offline_replicas,
        })
    }

    proof fn law_consumes(f: Format, r: Reader) {
        broadcast use group_consumes;

    }

    proof fn law_ignores_what_follows(f: Format, r: Reader, more: Seq<u8>) {
        broadcast use group_consumes, group_followed;

    }

    proof fn law_needs_only_what_it_takes(f: Format, r: Reader, k: nat) {
        broadcast use group_consumes, group_cut;

    }
}

/// Topic metadata in response.
#[derive(Debug, Clone)]
pub struct MetadataTopicResponse {
    /// Error code.
    pub error_code: ErrorCode,
    /// Topic name.
    pub name: Option<String>,
    /// Topic ID (v10+).
    pub topic_id: Option<[u8; 16]>,
    /// Is internal topic.
    pub is_internal: bool,
    /// Partition metadata.
    pub partitions: Vec<MetadataPartitionResponse>,
}

/// What a [`MetadataTopicResponse`] holds.
pub struct MetadataTopicResponseView {
    /// Error code.
    pub error_code: ErrorCode,
    /// Topic name.
    pub name: Option<Seq<char>>,
    /// Topic ID (v10+).
    pub topic_id: Option<Seq<u8>>,
    /// Is internal topic.
    pub is_internal: bool,
    /// Partition metadata.
    pub partitions: Seq<MetadataPartitionResponseView>,
}

impl View for MetadataTopicResponse {
    type V = MetadataTopicResponseView;

    open spec fn view(&self) -> MetadataTopicResponseView {
        MetadataTopicResponseView {
            error_code: self.error_code,
            name: optional_text(self.name),
            topic_id: optional_id(self.topic_id),
            is_internal: self.is_internal,
            partitions: views(self.partitions@),
        }
    }
}

impl WireDecode for MetadataTopicResponse {
    open spec fn read(f: Format, r: Reader) -> (MetadataTopicResponseView, Reader) {
        let (error_code, r) = r.error_code();
        let (name, r) = r.nullable_string(f.flexible);
        let (is_internal, r) = if f.version >= 1 {
            r.bool()
        } else {
            (false, r)
        };
        let (partitions, r) = r.array_or_empty::<MetadataPartitionResponse>(f);
        let r = if f.version >= 8 {
            r.i32().1
        } else {
            r
        };
        let value = MetadataTopicResponseView {
            error_code,
            name,
            topic_id: None,
            is_internal,
            partitions,
        };
        (value, r)
    }

    fn decode_wire(f: Format, buf: &mut Bytes) -> (res: Result<Self>) {
        let error_code = read_error_code(buf)?;
        let name = read_nullable_string(f.flexible, buf)?;
        let is_internal: bool = if f.version >= 1 {
            read_bool(buf)?
        } else {
            false
        };
        let partitions = read_array_or_empty::<MetadataPartitionResponse>(f, buf)?;
        if f.version >= 8 {
            read_i32(buf)?;
        }
        Ok(MetadataTopicResponse {
            error_code,
            name,
            topic_id: None,
            is_internal,
            partitions,
        })
    }

    proof fn law_consumes(f: Format, r: Reader) {
        broadcast use group_consumes;

    }

    proof fn law_ignores_what_follows(f: Format, r: Reader, more: Seq<u8>) {
        broadcast use group_consumes, group_followed;

    }

    proof fn law_needs_only_what_it_takes(f: Format, r: Reader, k: nat) {
        broadcast use group_consumes, group_cut;

    }
}

/// Broker info in metadata response.
#[derive(Debug, Clone)]
pub struct MetadataBroker {
    /// Broker ID.
    pub node_id: i32,
    /// Broker host.
    pub host: String,
    /// Broker port.
    pub port: i32,
    /// Broker rack.
    pub rack: Option<String>,
}

/// What a [`MetadataBroker`] holds.
pub struct MetadataBrokerView {
    /// Broker ID.
    pub node_id: i32,
    /// Broker host.
    pub host: Seq<char>,
    /// Broker port.
    pub port: i32,
    /// Broker rack.
    pub rack: Option<Seq<char>>,
}

impl View for MetadataBroker {
    type V = MetadataBrokerView;

    open spec fn view(&self) -> MetadataBrokerView {
        MetadataBrokerView {
            node_id: self.node_id,
            host: self.host@,
            port: self.port,
            rack: optional_text(self.rack),
        }
    }
}

impl WireDecode for MetadataBroker {
    open spec fn read(f: Format, r: Reader) -> (MetadataBrokerView, Reader) {
        let (node_id, r) = r.i32();
        let (host, r) = r.string_or_empty(f.flexible);
        let (port, r) = r.i32();
        let (rack, r) = if f.version >= 1 {
            r.nullable_string(f.flexible)
        } else {
            (None, r)
        };
        let value = MetadataBrokerView {
            node_id,
            host,
            port,
            rack,
        };
        (value, r)
    }

    fn decode_wire(f: Format, buf: &mut Bytes) -> (res: Result<Self>) {
        let node_id = read_i32(buf)?;
        let host = read_string_or_empty(f.flexible, buf)?;
        let port = read_i32(buf)?;
        let rack: Option<String> = if f.version >= 1 {
            read_nullable_string(f.flexible, buf)?
        } else {
            None
        };
        Ok(MetadataBroker {
            node_id,
            host,
            port,
            rack,
        })
    }

    proof fn law_consumes(f: Format, r: Reader) {
        broadcast use group_consumes;

    }

    proof fn law_ignores_what_follows(f: Format, r: Reader, more: Seq<u8>) {
        broadcast use group_consumes, group_followed;

    }

    proof fn law_needs_only_what_it_takes(f: Format, r: Reader, k: nat) {
        broadcast use group_consumes, group_cut;

    }
}

/// Metadata response.
#[derive(Debug, Clone)]
pub struct MetadataResponse {
    /// Throttle time in milliseconds.
    pub throttle_time_ms: i32,
    /// Brokers in the cluster.
    pub brokers: Vec<MetadataBroker>,
    /// Cluster ID.
    pub cluster_id: Option<String>,
    /// Controller broker ID.
    pub controller_id: i32,
    /// Topic metadata.
    pub topics: Vec<MetadataTopicResponse>,
}

impl Default for MetadataResponse {
    fn default() -> (r: Self)
        ensures
            r.throttle_time_ms == 0,
            r.brokers@.len() == 0,
            r.cluster_id is None,
            r.controller_id == 0,
            r.topics@.len() == 0,
    {
        MetadataResponse {
            throttle_time_ms: 0,
            brokers: Vec::new(),
            cluster_id: None,
            controller_id: 0,
            topics: Vec::new(),
        }
    }
}

/// What a [`MetadataResponse`] holds.
pub struct MetadataResponseView {
    /// Throttle time in milliseconds.
    pub throttle_time_ms: i32,
    /// Brokers in the cluster.
    pub brokers: Seq<MetadataBrokerView>,
    /// Cluster ID.
    pub cluster_id: Option<Seq<char>>,
    /// Controller broker ID.
    pub controller_id: i32,
    /// Topic metadata.
    pub topics: Seq<MetadataTopicResponseView>,
}

impl View for MetadataResponse {
    type V = MetadataResponseView;

    open spec fn view(&self) -> MetadataResponseView {
        MetadataResponseView {
            throttle_time_ms: self.throttle_time_ms,
            brokers: views(self.brokers@),
            cluster_id: optional_text(self.cluster_id),
            controller_id: self.controller_id,
            topics: views(self.topics@),
        }
    }
}

impl WireDecode for MetadataResponse {
    open spec fn read(f: Format, r: Reader) -> (MetadataResponseView, Reader) {
        let (throttle_time_ms, r) = if f.version >= 3 {
            r.i32()
        } else {
            (0, r)
        };
        let (brokers, r) = r.array_or_empty::<MetadataBroker>(f);
        let (cluster_id, r) = if f.version >= 2 {
            r.nullable_string(f.flexible)
        } else {
            (None, r)
        };
        let (controller_id, r) = if f.version >= 1 {
            r.i32()
        } else {
            ((-1) as i32, r)
        };
        let (topics, r) = r.array_or_empty::<MetadataTopicResponse>(f);
        let r = if f.version >= 8 {
            r.i32().1
        } else {
            r
        };
        let value = MetadataResponseView {
            throttle_time_ms,
            brokers,
            cluster_id,
            controller_id,
            topics,
        };
        (value, r)
    }

    fn decode_wire(f: Format, buf: &mut Bytes) -> (res: Result<Self>) {
        let throttle_time_ms: i32 = if f.version >= 3 {
            read_i32(buf)?
        } else {
            0
        };
        let brokers = read_array_or_empty::<MetadataBroker>(f, buf)?;
        let cluster_id: Option<String> = if f.version >= 2 {
            read_nullable_string(f.flexible, buf)?
        } else {
            None
        };
        let controller_id: i32 = if f.version >= 1 {
            read_i32(buf)?
        } else {
            -1
        };
        let topics = read_array_or_empty::<MetadataTopicResponse>(f, buf)?;
        if f.version >= 8 {
            read_i32(buf)?;
        }
        Ok(MetadataResponse {
            throttle_time_ms,
            brokers,
            cluster_id,
            controller_id,
            topics,
        })
    }

    proof fn law_consumes(f: Format, r: Reader) {
        broadcast use group_consumes;

    }

    proof fn law_ignores_what_follows(f: Format, r: Reader, more: Seq<u8>) {
        broadcast use group_consumes, group_followed;

    }

    proof fn law_needs_only_what_it_takes(f: Format, r: Reader, k: nat) {
        broadcast use group_consumes, group_cut;

    }
}

impl MetadataResponse {
    /// Decode from version 0.
    pub fn decode_v0(buf: &mut Bytes) -> (res: Result<Self>)
        ensures
            decoded(
                result_view(res),
                final(buf)@,
                Self::read(Format::plain(0), Reader::on(old(buf)@)),
            ),
    {
        Self::decode_wire(Format::plain(0), buf)
    }

    /// Decode from version 1.
    ///
    /// v1 adds broker rack, controller_id, and topic is_internal.
    pub fn decode_v1(buf: &mut Bytes) -> (res: Result<Self>)
        ensures
            decoded(
                result_view(res),
                final(buf)@,
                Self::read(Format::plain(1), Reader::on(old(buf)@)),
            ),
    {
        Self::decode_wire(Format::plain(1), buf)
    }

    /// Decode from version 2.
    ///
    /// v2 adds cluster_id.
    pub fn decode_v2(buf: &mut Bytes) -> (res: Result<Self>)
        ensures
            decoded(
                result_view(res),
                final(buf)@,
                Self::read(Format::plain(2), Reader::on(old(buf)@)),
            ),
    {
        Self::decode_wire(Format::plain(2), buf)
    }

    /// Decode from version 3-4.
    ///
    /// v3 adds throttle_time_ms. v4 only changes the request (allow_auto_topic_creation).
    pub fn decode_v3(buf: &mut Bytes) -> (res: Result<Self>)
        ensures
            decoded(
                result_view(res),
                final(buf)@,
                Self::read(Format::plain(3), Reader::on(old(buf)@)),
            ),
    {
        Self::decode_wire(Format::plain(3), buf)
    }

    /// Decode from version 5-6.
    ///
    /// v5 adds partition offline_replicas. v6 has no wire changes.
    pub fn decode_v5(buf: &mut Bytes) -> (res: Result<Self>)
        ensures
            decoded(
                result_view(res),
                final(buf)@,
                Self::read(Format::plain(5), Reader::on(old(buf)@)),
            ),
    {
        Self::decode_wire(Format::plain(5), buf)
    }

    /// Decode from version 7.
    ///
    /// v7 adds partition leader_epoch.
    pub fn decode_v7(buf: &mut Bytes) -> (res: Result<Self>)
        ensures
            decoded(
                result_view(res),
                final(buf)@,
                Self::read(Format::plain(7), Reader::on(old(buf)@)),
            ),
    {
        Self::decode_wire(Format::plain(7), buf)
    }

    /// Decode from version 8.
    ///
    /// v8 adds topic_authorized_operations and cluster_authorized_operations.
    /// Both are read and discarded - the encoder always sends `false` for the
    /// include flags, so brokers return the "not requested" sentinel (`i32::MIN`).
    /// When authorized-operations support is added, plumb these into the response.
    pub fn decode_v8(buf: &mut Bytes) -> (res: Result<Self>)
        ensures
            decoded(
                result_view(res),
                final(buf)@,
                Self::read(Format::plain(8), Reader::on(old(buf)@)),
            ),
    {
        Self::decode_wire(Format::plain(8), buf)
    }
}

impl MetadataResponse {
    /// Find broker by ID.
    pub fn find_broker(&self, node_id: i32) -> (r: Option<&MetadataBroker>)
        ensures
            match r {
                Some(broker) => exists|i: int|
                    {
                        &&& 0 <= i < self.brokers@.len()
                        &&& *broker == #[trigger] self.brokers@[i]
                        &&& broker.node_id == node_id
                        &&& forall|j: int| 0 <= j < i ==> self.brokers@[j].node_id != node_id
                    },
                None => forall|j: int|
                    0 <= j < self.brokers@.len() ==> self.brokers@[j].node_id != node_id,
            },
    {
        let mut i: usize = 0;
        while i < self.brokers.len()
            invariant
                i <= self.brokers@.len(),
                forall|j: int| 0 <= j < i ==> self.brokers@[j].node_id != node_id,
            decreases self.brokers@.len() - i,
        {
            if self.brokers[i].node_id == node_id {
                return Some(&self.brokers[i]);
            }
            i = i + 1;
        }
        None
    }

    /// Find topic by name.
    pub fn find_topic(&self, name: &str) -> (r: Option<&MetadataTopicResponse>)
        ensures
            match r {
                Some(topic) => exists|i: int|
                    {
                        &&& 0 <= i < self.topics@.len()
                        &&& *topic == #[trigger] self.topics@[i]
                        &&& optional_text(topic.name) == Some(name@)
                        &&& forall|j: int|
                            0 <= j < i ==> optional_text(self.topics@[j].name) != Some(name@)
                    },
                None => forall|j: int|
                    0 <= j < self.topics@.len() ==> optional_text(self.topics@[j].name) != Some(
                        name@,
                    ),
            },
    {
        let wanted = name.to_owned();
        let mut i: usize = 0;
        while i < self.topics.len()
            invariant
                i <= self.topics@.len(),
                wanted@ == name@,
                forall|j: int| 0 <= j < i ==> optional_text(self.topics@[j].name) != Some(name@),
            decreases self.topics@.len() - i,
        {
            if let Some(found) = &self.topics[i].name {
                if *found == wanted {
                    return Some(&self.topics[i]);
                }
            }
            i = i + 1;
        }
        None
    }
}

impl VersionedEncode for MetadataRequest {
    open spec fn request_key() -> ApiKey {
        ApiKey::Metadata
    }

    open spec fn encodes(version: i16) -> bool {
        0 <= version <= 8
    }

    open spec fn request_format(version: i16) -> Format {
        match version {
            0 => Format::plain(0),
            1 | 2 | 3 => Format::plain(1),
            4 | 5 | 6 | 7 => Format::plain(4),
            _ => Format::plain(8),
        }
    }

    open spec fn request_name() -> &'static str {
        "MetadataRequest"
    }

    fn encode_versioned(&self, version: i16, buf: &mut BytesMut) -> (res: Result<()>) {
        match version {
            0 => self.encode_v0(buf),
            1 | 2 | 3 => self.encode_v1(buf),
            4 | 5 | 6 | 7 => self.encode_v4(buf),
            8 => self.encode_v8(buf),
            _ => Err(
                KrafkaError::Protocol(
                    ProtocolErrorKind::Malformed,
                    Reason::UnsupportedEncode("MetadataRequest", version),
                ),
            ),
        }
    }

    proof fn law_request_format(&self, version: i16, w: Writer) {
    }

    proof fn law_unsupported_encode(&self, version: i16, w: Writer) {
    }
}

impl VersionedDecode for MetadataResponse {
    open spec fn response_key() -> ApiKey {
        ApiKey::Metadata
    }

    open spec fn decodes(version: i16) -> bool {
        0 <= version <= 8
    }

    open spec fn response_format(version: i16) -> Format {
        match version {
            0 => Format::plain(0),
            1 => Format::plain(1),
            2 => Format::plain(2),
            3 | 4 => Format::plain(3),
            5 | 6 => Format::plain(5),
            7 => Format::plain(7),
            _ => Format::plain(8),
        }
    }

    open spec fn response_name() -> &'static str {
        "MetadataResponse"
    }

    fn decode_versioned(version: i16, buf: &mut Bytes) -> (res: Result<Self>) {
        match version {
            0 => Self::decode_v0(buf),
            1 => Self::decode_v1(buf),
            2 => Self::decode_v2(buf),
            3 | 4 => Self::decode_v3(buf),
            5 | 6 => Self::decode_v5(buf),
            7 => Self::decode_v7(buf),
            8 => Self::decode_v8(buf),
            _ => Err(
                KrafkaError::Protocol(
                    ProtocolErrorKind::Malformed,
                    Reason::UnsupportedDecode("MetadataResponse", version),
                ),
            ),
        }
    }

    proof fn law_response_format(version: i16, r: Reader) {
    }

    proof fn law_unsupported_decode(version: i16, r: Reader) {
    }
}

/// Versions 1 to 3 of the request have one format, and versions 4 to 7 have one.
pub proof fn law_metadata_requests_share_formats(request: MetadataRequest, w: Writer)
    ensures
        request.written_versioned(2, w) == request.written_versioned(1, w),
        request.written_versioned(3, w) == request.written_versioned(1, w),
        request.written_versioned(5, w) == request.written_versioned(4, w),
        request.written_versioned(6, w) == request.written_versioned(4, w),
        request.written_versioned(7, w) == request.written_versioned(4, w),
{
}

/// Version 4 of the response has the format of version 3, and version 6 that of
/// version 5.
pub proof fn law_metadata_responses_share_formats(r: Reader)
    ensures
        MetadataResponse::read_versioned(4, r) == MetadataResponse::read_versioned(3, r),
        MetadataResponse::read_versioned(6, r) == MetadataResponse::read_versioned(5, r),
{
}

/// Topics are written alike in every version.
proof fn lemma_topics_alike(
    w: Writer,
    topics: Seq<MetadataRequestTopic>,
    f: Format,
    g: Format,
    n: nat,
)
    requires
        f.flexible == g.flexible,
    ensures
        w.items(topics, f, n) == w.items(topics, g, n),
    decreases n,
{
    if n > 0 {
        lemma_topics_alike(w, topics, f, g, (n - 1) as nat);
    }
}

/// Version 4 of the request is version 1 with a byte that says whether topics may
/// be created, and version 8 adds two zero bytes to that.
pub proof fn law_metadata_requests_append_flags(request: MetadataRequest, w: Writer)
    ensures
        ({
            let v1 = request.written(Format::plain(1), w);
            let v4 = request.written(Format::plain(4), w);
            let v8 = request.written(Format::plain(8), w);
            &&& v4 == v1.bool(request.allow_auto_topic_creation)
            &&& v8 == v4.bool(false).bool(false)
        }),
{
    if let Some(topics) = request.topics {
        let counted = w.array_len(topics@.len(), false);
        let n = topics@.len();
        lemma_topics_alike(counted, topics@, Format::plain(4), Format::plain(1), n);
        lemma_topics_alike(counted, topics@, Format::plain(8), Format::plain(1), n);
    }
}

/// All topics are asked for by a zero length in version 0 and by the length `-1`
/// from version 1 on.
pub proof fn law_all_topics_request(request: MetadataRequest, version: i16, w: Writer)
    requires
        request.topics is None,
        0 <= version <= 3,
    ensures
        request.written_versioned(version, w) == w.i32(
            if version == 0 {
                0
            } else {
                (-1) as i32
            },
        ),
{
    reveal(Writer::array_len);
}

} // verus!
