//! The decisions of the Zigbee coordinator and of its EZSP provider: the commands
//! that bring the network co-processor up and form the network, what an
//! outgoing message is sent as, what a response or callback of the
//! co-processor is passed on as, and what an incoming frame gives the
//! devices. The serial link, the channels, the timers and the waiting for
//! responses are the caller's.

use vstd::prelude::*;
use std::collections::HashMap;
use crate::zigbee::ezsp_data::{
    CommandData, CommandV, EmberApsFrame, EmberApsFrameV, EmberInitialSecurityState,
    EmberInitialSecurityStateV, EmberJoinDecision, EmberJoinMethod, EmberKeyData, EmberKeyDataV,
    EmberMulticastTableEntry, EmberMulticastTableEntryV, EmberNetworkParameters,
    EmberNetworkParametersV, EmberOutgoingMessageType, EmberStatus, EzspConfigId, EzspDecisionId,
    EzspPolicyId, EzspValueId, ResponseData,
};
use crate::zigbee::zcl::{
    command_parse, zcl_parse, Command, CommandExtensionType, CommandV as ZclCommandV, ZclFrame,
};
use crate::zigbee::zcl_command::{
    attr_bytes, kind_of, le16, le32, recs_bytes, recs_view, AttrData, AttrKind, AttrV, AttributeRecord,
    AttributeValue, FormatError, GenericBody, GenericCommand, GenericV, RecV,
};
use crate::zigbee::ezsp_data::{ResponseV};
use crate::zigbee::zcl::{ZclCommandFrameV, ZclFrameControl};
use crate::zigbee::zcl_command::{
    read_recs_view, ReadAttributeRecord, dp_attribute, DpData, DpDataValue, DpValueV, GenericV as ZclGenericV, ReadRecV, TuyaCommand, TuyaV,
};
use crate::zigbee::zdp::{zdo_cluster, BindReqAddr, ZdoCommand, ZdoV, ZdpFrame};

verus! {

/// The cluster of the coordinator's own attributes: attribute 0 tells whether the
/// network is open for joining.
pub const GATE_CLUSTER: u16 = 0xffff;

/// How long the network is opened for joining, in seconds.
pub const JOIN_DURATION: u8 = 100;

/// How long the provider waits for a response, in milliseconds.
pub const NCP_TIMEOUT: u16 = 200;

/// The Home Automation profile.
pub const Z_PROF_HA: u16 = 0x0104;

/// The parameters of the network the coordinator forms.
#[derive(Debug, Clone, Copy, PartialEq, Eq)]
pub struct SwZGateNetwork {
    pub pan_id: u16,
    pub extended_pan_id: [u8; 8],
    pub key: [u8; 16],
    pub channel: u8,
}

/// The settings the provider is started with.
#[derive(Debug, Clone, PartialEq, Eq)]
pub struct SwZGateConfig {
    pub debug: u8,
    /// The groups the coordinator's endpoint joins, besides group 0.
    pub multicast_groups: Vec<u16>,
    pub network: SwZGateNetwork,
}

/// What the coordinator and its provider tell each other.
#[derive(Debug, Clone, PartialEq, Eq)]
pub enum ZigbeeData {
    IncomingMessage {
        profile_id: u16,
        cluster_id: u16,
        source_endpoint: u8,
        sender: u16,
        sender_eui64: Option<u64>,
        message_contents: Vec<u8>,
    },
    IncomingNode { node_id: u16, node_eui64: u64, is_child_join: bool },
    OutgoingMessage { profile_id: u16, cluster_id: u16, endpoint: u8, receiver: u16, message_contents: Vec<u8> },
    LocalEui64 { eui64: u64 },
}

// ---------------------------------------------------------------- start-up

/// The well known link key "ZigBeeAlliance09".
pub open spec fn well_known_key() -> Seq<u8> {
    seq![0x5Au8, 0x69, 0x67, 0x42, 0x65, 0x65, 0x41, 0x6C, 0x6C, 0x69, 0x61, 0x6E, 0x63, 0x65, 0x30, 0x39]
}

/// The clusters of the coordinator's first endpoint, in and out alike.
pub open spec fn endpoint_clusters() -> Seq<u16> {
    seq![
        0x0000u16, 0x0002, 0x0004, 0x0005, 0x0006, 0x0007, 0x0008, 0x000A, 0x0013, 0x0020, 0x0102, 0x0300,
        0x0400, 0x0402, 0x0403, 0x0405, 0x0406, 0x0500, 0x0501,
    ]
}

pub open spec fn set_config(id: EzspConfigId, value: u16) -> CommandV {
    CommandV::SetConfigurationValue { config_id: id, value }
}

pub open spec fn set_value16(id: EzspValueId, value: u16) -> CommandV {
    CommandV::SetValue { value_id: id, value_length: 2, value: le16(value) }
}

pub open spec fn set_value32(id: EzspValueId, value: u32) -> CommandV {
    CommandV::SetValue { value_id: id, value_length: 4, value: le32(value) }
}

pub open spec fn set_policy(p: EzspPolicyId, d: EzspDecisionId) -> CommandV {
    CommandV::SetPolicy { policy_id: p, decision_id: d }
}

/// The configuration of the co-processor: table sizes, timeouts, policies
/// and values, in the order they are set.
pub open spec fn setup_commands() -> Seq<CommandV> {
    setup_first() + setup_second() + setup_third()
}

/// The configuration commands, the first third.
pub open spec fn setup_first() -> Seq<CommandV> {
    seq![
        set_config(EzspConfigId::EzspConfigSecurityLevel, 0x0005),
        set_config(EzspConfigId::EzspConfigAddressTableSize, 0x0002),
        set_config(EzspConfigId::EzspConfigTrustCenterAddressCacheSize, 0x0002),
        set_config(EzspConfigId::EzspConfigStackProfile, 0x0002),
        set_config(EzspConfigId::EzspConfigIndirectTransmissionTimeout, 0x1E00),
        set_config(EzspConfigId::EzspConfigMaxHops, 0x001E),
        set_config(EzspConfigId::EzspConfigTxPowerMode, 0x8000),
        set_config(EzspConfigId::EzspConfigSupportedNetworks, 0x0001),
        set_value32(EzspValueId::EzspValueEndDeviceKeepAliveSupportMode, 0x00000003),
        set_policy(
            EzspPolicyId::EzspBindingModificationPolicy,
            EzspDecisionId::EzspCheckBindingModificationsAreValidEndpointClusters,
        ),
        set_policy(
            EzspPolicyId::EzspMessageContentsInCallbackPolicy,
            EzspDecisionId::EzspMessageTagAndContentsInCallback,
        ),
        set_value32(EzspValueId::EzspValueMaximumIncomingTransferSize, 0x00000052),
    ]
}

/// The configuration commands, the second third.
pub open spec fn setup_second() -> Seq<CommandV> {
    seq![
        set_value32(EzspValueId::EzspValueMaximumOutgoingTransferSize, 0x00000052),
        set_value16(EzspValueId::EzspValueCcaThreshold, 0xf2b5),
        set_config(EzspConfigId::EzspConfigBindingTableSize, 0x0010),
        set_config(EzspConfigId::EzspConfigKeyTableSize, 0x0004),
        set_config(EzspConfigId::EzspConfigMaxEndDeviceChildren, 0x0020),
        set_config(EzspConfigId::EzspConfigApsUnicastMessageCount, 0x000A),
        set_config(EzspConfigId::EzspConfigBroadcastTableSize, 0x000F),
        set_config(EzspConfigId::EzspConfigNeighborTableSize, 0x0010),
        set_config(EzspConfigId::EzspConfigPacketBufferCount, 253),
        set_config(EzspConfigId::EzspConfigEndDevicePollTimeout, 0x0008),
        set_config(EzspConfigId::EzspConfigZllGroupAddresses, 0x0000),
        set_config(EzspConfigId::EzspConfigZllRssiThreshold, 0xFFD8),
    ]
}

/// The configuration commands, the last third.
pub open spec fn setup_third() -> Seq<CommandV> {
    seq![
        set_config(EzspConfigId::EzspConfigTransientKeyTimeoutS, 0x00B4),
        set_config(EzspConfigId::EzspConfigMulticastTableSize, 16),
        set_config(EzspConfigId::EzspConfigSourceRouteTableSize, 16),
        set_config(EzspConfigId::EzspConfigPanIdConflictReportThreshold, 2),
        set_config(EzspConfigId::EzspConfigApplicationZdoFlags, 0x0003),
        set_value16(EzspValueId::EzspValueExtendedSecurityBitmask, 0x0110),
        set_policy(EzspPolicyId::EzspTrustCenterPolicy, EzspDecisionId::EzspAllowPreconfiguredKeyJoins),
        set_policy(EzspPolicyId::EzspUnicastRepliesPolicy, EzspDecisionId::EzspHostWillNotSupplyReply),
        set_policy(EzspPolicyId::EzspPollHandlerPolicy, EzspDecisionId::EzspPollHandlerIgnore),
        set_policy(
            EzspPolicyId::EzspTcKeyRequestPolicy,
            EzspDecisionId::EzspAllowTcKeyRequestsAndSendCurrentKey,
        ),
        set_policy(EzspPolicyId::EzspAppKeyRequestPolicy, EzspDecisionId::EzspDenyAppKeyRequests),
        set_policy(EzspPolicyId::EzspTcRejoinsUsingWellKnownKeyPolicy, EzspDecisionId::EzspAllowJoins),
    ]
}

/// The two endpoints, the security state and the network: endpoint 1 with
/// the coordinator's clusters, endpoint 0x0b with none, the well known link key
/// and the network's key, and the network formed on the configured channel
/// at 9 dBm.
pub open spec fn network_commands(n: SwZGateNetwork) -> Seq<CommandV> {
    seq![
        CommandV::AddEndpoint {
            endpoint: 1,
            profile_id: Z_PROF_HA,
            device_id: 5,
            app_flags: 0,
            input_cluster_count: 19,
            output_cluster_count: 19,
            input_cluster_list: endpoint_clusters(),
            output_cluster_list: endpoint_clusters(),
        },
        CommandV::AddEndpoint {
            endpoint: 0x0b,
            profile_id: Z_PROF_HA,
            device_id: 5,
            app_flags: 0,
            input_cluster_count: 0,
            output_cluster_count: 0,
            input_cluster_list: Seq::empty(),
            output_cluster_list: Seq::empty(),
        },
        CommandV::SetInitialSecurityState {
            state: EmberInitialSecurityStateV {
                bitmask: 0x1304,
                preconfigured_key: EmberKeyDataV { contents: well_known_key() },
                network_key: EmberKeyDataV { contents: n.key@ },
                network_key_sequence_number: 0,
                preconfigured_trust_center_eui64: 0,
            },
        },
        CommandV::FormNetwork(
            EmberNetworkParametersV {
                extended_pan_id: n.extended_pan_id@,
                pan_id: n.pan_id,
                radio_tx_power: 9,
                radio_channel: n.channel,
                join_method: EmberJoinMethod::EmberUseMacAssociation,
                nwk_manager_id: 0xffff,
                nwk_update_id: 0,
                channels: 0,
            },
        ),
    ]
}

/// The multicast entry of group `id` at `index`, for endpoint 1.
pub open spec fn multicast_entry(index: u8, id: u16) -> CommandV {
    CommandV::SetMulticastTableEntry {
        index,
        value: EmberMulticastTableEntryV { multicast_id: id, endpoint: 1, network_index: 0 },
    }
}

/// Group 0 at entry 0, then each configured group at the next entry.
pub open spec fn multicast_commands(groups: Seq<u16>) -> Seq<CommandV> {
    seq![multicast_entry(0, 0)] + Seq::new(groups.len(), |k: int| multicast_entry((k + 1) as u8, groups[k]))
}

/// Everything the provider sends after the co-processor came up, in order:
/// the configuration, the endpoints, security and network, the multicast
/// groups, then the request for the local EUI64 and the opening of the
/// network for joining.
pub open spec fn startup_commands(n: SwZGateNetwork, groups: Seq<u16>) -> Seq<CommandV> {
    setup_commands() + network_commands(n) + multicast_commands(groups) + seq![
        CommandV::GetEui64,
        CommandV::PermitJoining { duration: JOIN_DURATION },
    ]
}

/// The models of some commands.
pub open spec fn command_views(s: Seq<CommandData>) -> Seq<CommandV> {
    s.map_values(|c: CommandData| c@)
}

fn push_command(v: &mut Vec<CommandData>, c: CommandData)
    ensures
        command_views(final(v)@) == command_views(old(v)@).push(c@),
{
    v.push(c);
    proof {
        assert(command_views(final(v)@) =~= command_views(old(v)@).push(c@));
    }
}

fn config(id: EzspConfigId, value: u16) -> (r: CommandData)
    ensures
        r@ == set_config(id, value),
{
    CommandData::SetConfigurationValue { config_id: id, value }
}

fn value16(id: EzspValueId, value: u16) -> (r: CommandData)
    ensures
        r@ == set_value16(id, value),
{
    let v = vec![(value % 256) as u8, (value / 256) as u8];
    proof {
        assert(v@ =~= le16(value));
    }
    CommandData::SetValue { value_id: id, value_length: 2, value: v }
}

fn value32(id: EzspValueId, value: u32) -> (r: CommandData)
    ensures
        r@ == set_value32(id, value),
{
    let v = vec![
        (value % 256) as u8,
        ((value / 256) % 256) as u8,
        ((value / 0x1_0000) % 256) as u8,
        (value / 0x100_0000) as u8,
    ];
    proof {
        assert(v@ =~= le32(value));
    }
    CommandData::SetValue { value_id: id, value_length: 4, value: v }
}

fn policy(p: EzspPolicyId, d: EzspDecisionId) -> (r: CommandData)
    ensures
        r@ == set_policy(p, d),
{
    CommandData::SetPolicy { policy_id: p, decision_id: d }
}

fn push_setup_first(v: &mut Vec<CommandData>)
    ensures
        command_views(final(v)@) == command_views(old(v)@) + setup_first(),
{
    let ghost start = command_views(v@);
    push_command(v, config(EzspConfigId::EzspConfigSecurityLevel, 0x0005));
    push_command(v, config(EzspConfigId::EzspConfigAddressTableSize, 0x0002));
    push_command(v, config(EzspConfigId::EzspConfigTrustCenterAddressCacheSize, 0x0002));
    push_command(v, config(EzspConfigId::EzspConfigStackProfile, 0x0002));
    push_command(v, config(EzspConfigId::EzspConfigIndirectTransmissionTimeout, 0x1E00));
    push_command(v, config(EzspConfigId::EzspConfigMaxHops, 0x001E));
    push_command(v, config(EzspConfigId::EzspConfigTxPowerMode, 0x8000));
    push_command(v, config(EzspConfigId::EzspConfigSupportedNetworks, 0x0001));
    push_command(v, value32(EzspValueId::EzspValueEndDeviceKeepAliveSupportMode, 0x00000003));
    push_command(
        v,
        policy(
            EzspPolicyId::EzspBindingModificationPolicy,
            EzspDecisionId::EzspCheckBindingModificationsAreValidEndpointClusters,
        ),
    );
    push_command(
        v,
        policy(EzspPolicyId::EzspMessageContentsInCallbackPolicy, EzspDecisionId::EzspMessageTagAndContentsInCallback),
    );
    push_command(v, value32(EzspValueId::EzspValueMaximumIncomingTransferSize, 0x00000052));
    proof {
        assert(command_views(v@) =~= start + setup_first());
    }
}

fn push_setup_second(v: &mut Vec<CommandData>)
    ensures
        command_views(final(v)@) == command_views(old(v)@) + setup_second(),
{
    let ghost start = command_views(v@);
    push_command(v, value32(EzspValueId::EzspValueMaximumOutgoingTransferSize, 0x00000052));
    push_command(v, value16(EzspValueId::EzspValueCcaThreshold, 0xf2b5));
    push_command(v, config(EzspConfigId::EzspConfigBindingTableSize, 0x0010));
    push_command(v, config(EzspConfigId::EzspConfigKeyTableSize, 0x0004));
    push_command(v, config(EzspConfigId::EzspConfigMaxEndDeviceChildren, 0x0020));
    push_command(v, config(EzspConfigId::EzspConfigApsUnicastMessageCount, 0x000A));
    push_command(v, config(EzspConfigId::EzspConfigBroadcastTableSize, 0x000F));
    push_command(v, config(EzspConfigId::EzspConfigNeighborTableSize, 0x0010));
    push_command(v, config(EzspConfigId::EzspConfigPacketBufferCount, 253));
    push_command(v, config(EzspConfigId::EzspConfigEndDevicePollTimeout, 0x0008));
    push_command(v, config(EzspConfigId::EzspConfigZllGroupAddresses, 0x0000));
    push_command(v, config(EzspConfigId::EzspConfigZllRssiThreshold, 0xFFD8));
    proof {
        assert(command_views(v@) =~= start + setup_second());
    }
}

fn push_setup_third(v: &mut Vec<CommandData>)
    ensures
        command_views(final(v)@) == command_views(old(v)@) + setup_third(),
{
    let ghost start = command_views(v@);
    push_command(v, config(EzspConfigId::EzspConfigTransientKeyTimeoutS, 0x00B4));
    push_command(v, config(EzspConfigId::EzspConfigMulticastTableSize, 16));
    push_command(v, config(EzspConfigId::EzspConfigSourceRouteTableSize, 16));
    push_command(v, config(EzspConfigId::EzspConfigPanIdConflictReportThreshold, 2));
    push_command(v, config(EzspConfigId::EzspConfigApplicationZdoFlags, 0x0003));
    push_command(v, value16(EzspValueId::EzspValueExtendedSecurityBitmask, 0x0110));
    push_command(v, policy(EzspPolicyId::EzspTrustCenterPolicy, EzspDecisionId::EzspAllowPreconfiguredKeyJoins));
    push_command(v, policy(EzspPolicyId::EzspUnicastRepliesPolicy, EzspDecisionId::EzspHostWillNotSupplyReply));
    push_command(v, policy(EzspPolicyId::EzspPollHandlerPolicy, EzspDecisionId::EzspPollHandlerIgnore));
    push_command(
        v,
        policy(EzspPolicyId::EzspTcKeyRequestPolicy, EzspDecisionId::EzspAllowTcKeyRequestsAndSendCurrentKey),
    );
    push_command(v, policy(EzspPolicyId::EzspAppKeyRequestPolicy, EzspDecisionId::EzspDenyAppKeyRequests));
    push_command(v, policy(EzspPolicyId::EzspTcRejoinsUsingWellKnownKeyPolicy, EzspDecisionId::EzspAllowJoins));
    proof {
        assert(command_views(v@) =~= start + setup_third());
    }
}

/// The configuration commands, as `setup_commands` says.
fn push_setup(v: &mut Vec<CommandData>)
    ensures
        command_views(final(v)@) == command_views(old(v)@) + setup_commands(),
{
    let ghost start = command_views(v@);
    push_setup_first(v);
    push_setup_second(v);
    push_setup_third(v);
    proof {
        assert(command_views(v@) =~= start + setup_commands());
    }
}

/// The endpoint, security and network commands, as `network_commands` says.
fn push_network(v: &mut Vec<CommandData>, n: &SwZGateNetwork)
    ensures
        command_views(final(v)@) == command_views(old(v)@) + network_commands(*n),
{
    let ghost start = command_views(v@);
    let clusters: Vec<u16> = vec![
        0x0000, 0x0002, 0x0004, 0x0005, 0x0006, 0x0007, 0x0008, 0x000A, 0x0013, 0x0020, 0x0102, 0x0300,
        0x0400, 0x0402, 0x0403, 0x0405, 0x0406, 0x0500, 0x0501,
    ];
    proof {
        assert(clusters@ =~= endpoint_clusters());
    }
    push_command(
        v,
        CommandData::AddEndpoint {
            endpoint: 1,
            profile_id: Z_PROF_HA,
            device_id: 5,
            app_flags: 0,
            input_cluster_count: 19,
            output_cluster_count: 19,
            input_cluster_list: clusters.clone(),
            output_cluster_list: clusters,
        },
    );
    push_command(
        v,
        CommandData::AddEndpoint {
            endpoint: 0x0b,
            profile_id: Z_PROF_HA,
            device_id: 5,
            app_flags: 0,
            input_cluster_count: 0,
            output_cluster_count: 0,
            input_cluster_list: Vec::new(),
            output_cluster_list: Vec::new(),
        },
    );
    let well_known: [u8; 16] = [
        0x5A, 0x69, 0x67, 0x42, 0x65, 0x65, 0x41, 0x6C, 0x6C, 0x69, 0x61, 0x6E, 0x63, 0x65, 0x30, 0x39,
    ];
    proof {
        assert(well_known@ =~= well_known_key());
    }
    push_command(
        v,
        CommandData::SetInitialSecurityState {
            state: EmberInitialSecurityState {
                bitmask: 0x1304,
                preconfigured_key: EmberKeyData { contents: well_known },
                network_key: EmberKeyData { contents: n.key },
                network_key_sequence_number: 0,
                preconfigured_trust_center_eui64: 0,
            },
        },
    );
    push_command(
        v,
        CommandData::FormNetwork(
            EmberNetworkParameters {
                extended_pan_id: n.extended_pan_id,
                pan_id: n.pan_id,
                radio_tx_power: 9,
                radio_channel: n.channel,
                join_method: EmberJoinMethod::EmberUseMacAssociation,
                nwk_manager_id: 0xffff,
                nwk_update_id: 0,
                channels: 0,
            },
        ),
    );
    proof {
        assert(command_views(v@) =~= start + network_commands(*n));
    }
}

/// The multicast table entries, as `multicast_commands` says.
fn push_multicast(v: &mut Vec<CommandData>, groups: &Vec<u16>)
    requires
        groups@.len() < 255,
    ensures
        command_views(final(v)@) == command_views(old(v)@) + multicast_commands(groups@),
{
    let ghost start = command_views(v@);
    push_command(
        v,
        CommandData::SetMulticastTableEntry {
            index: 0,
            value: EmberMulticastTableEntry { multicast_id: 0, endpoint: 1, network_index: 0 },
        },
    );
    let mut k: usize = 0;
    while k < groups.len()
        invariant
            k <= groups@.len() < 255,
            command_views(v@) == start + seq![multicast_entry(0, 0)] + Seq::new(
                k as nat,
                |j: int| multicast_entry((j + 1) as u8, groups@[j]),
            ),
        decreases groups@.len() - k,
    {
        let ghost before = command_views(v@);
        push_command(
            v,
            CommandData::SetMulticastTableEntry {
                index: (k + 1) as u8,
                value: EmberMulticastTableEntry { multicast_id: groups[k], endpoint: 1, network_index: 0 },
            },
        );
        k += 1;
        proof {
            assert(command_views(v@) =~= start + seq![multicast_entry(0, 0)] + Seq::new(
                k as nat,
                |j: int| multicast_entry((j + 1) as u8, groups@[j]),
            ));
        }
    }
    proof {
        assert(command_views(v@) =~= start + multicast_commands(groups@));
    }
}

/// Everything the provider sends once the co-processor is up, as
/// `startup_commands` says. There are fewer than 255 multicast groups: the
/// table index of each is one byte.
pub fn init_commands(config: &SwZGateConfig) -> (r: Vec<CommandData>)
    requires
        config.multicast_groups@.len() < 255,
    ensures
        command_views(r@) == startup_commands(config.network, config.multicast_groups@),
{
    let mut v: Vec<CommandData> = Vec::new();
    proof {
        assert(command_views(v@) =~= Seq::<CommandV>::empty());
    }
    push_setup(&mut v);
    push_network(&mut v, &config.network);
    push_multicast(&mut v, &config.multicast_groups);
    push_command(&mut v, CommandData::GetEui64);
    push_command(&mut v, CommandData::PermitJoining { duration: JOIN_DURATION });
    proof {
        assert(command_views(v@) =~= startup_commands(config.network, config.multicast_groups@));
    }
    v
}

// ---------------------------------------------------------------- provider

/// The model of what the coordinator and its provider tell each other.
pub enum ZigbeeDataV {
    IncomingMessage {
        profile_id: u16,
        cluster_id: u16,
        source_endpoint: u8,
        sender: u16,
        sender_eui64: Option<u64>,
        message_contents: Seq<u8>,
    },
    IncomingNode { node_id: u16, node_eui64: u64, is_child_join: bool },
    OutgoingMessage { profile_id: u16, cluster_id: u16, endpoint: u8, receiver: u16, message_contents: Seq<u8> },
    LocalEui64 { eui64: u64 },
}

impl View for ZigbeeData {
    type V = ZigbeeDataV;

    open spec fn view(&self) -> ZigbeeDataV {
        match self {
            ZigbeeData::IncomingMessage {
                profile_id,
                cluster_id,
                source_endpoint,
                sender,
                sender_eui64,
                message_contents,
            } => ZigbeeDataV::IncomingMessage {
                profile_id: *profile_id,
                cluster_id: *cluster_id,
                source_endpoint: *source_endpoint,
                sender: *sender,
                sender_eui64: *sender_eui64,
                message_contents: message_contents@,
            },
            ZigbeeData::IncomingNode { node_id, node_eui64, is_child_join } => ZigbeeDataV::IncomingNode {
                node_id: *node_id,
                node_eui64: *node_eui64,
                is_child_join: *is_child_join,
            },
            ZigbeeData::OutgoingMessage { profile_id, cluster_id, endpoint, receiver, message_contents } =>
                ZigbeeDataV::OutgoingMessage {
                profile_id: *profile_id,
                cluster_id: *cluster_id,
                endpoint: *endpoint,
                receiver: *receiver,
                message_contents: message_contents@,
            },
            ZigbeeData::LocalEui64 { eui64 } => ZigbeeDataV::LocalEui64 { eui64: *eui64 },
        }
    }
}

/// Whether a record sets the coordinator's attribute 0 to a boolean, and to which.
pub open spec fn gate_flag(r: RecV) -> Option<bool> {
    if r.identifier == 0 && r.data.id == 0x10 && r.data.data is Flag {
        Some(r.data.data->Flag_0)
    } else {
        None
    }
}

/// The last record that sets the coordinator's attribute 0.
pub open spec fn gate_permit(recs: Seq<RecV>) -> Option<bool>
    decreases recs.len(),
{
    if recs.len() == 0 {
        None
    } else {
        match gate_flag(recs.last()) {
            Some(b) => Some(b),
            None => gate_permit(recs.drop_last()),
        }
    }
}

/// The records of a frame to the coordinator's cluster, if it writes attributes.
pub open spec fn gate_write(b: Seq<u8>) -> Option<Seq<RecV>> {
    match zcl_parse(b) {
        Ok(h) => match command_parse(h.command, h.control.frame_type, GATE_CLUSTER, CommandExtensionType::Raw) {
            Ok(ZclCommandV::Generic(g)) => if g.id == 0x02 && g.body is Recs {
                Some(g.body->Recs_0)
            } else {
                None
            },
            _ => None,
        },
        Err(_) => None,
    }
}

/// What the provider sends for a message of the coordinator, and the APS sequence
/// number after it: writing the coordinator's attribute 0 opens the network for
/// joining (true) or closes it (false), the last such record deciding;
/// any other outgoing message is sent as a direct unicast with route
/// discovery, which takes a sequence number.
pub open spec fn outgoing_action(m: ZigbeeDataV, sequence: u8) -> (Option<CommandV>, u8) {
    match m {
        ZigbeeDataV::OutgoingMessage { profile_id, cluster_id, endpoint, receiver, message_contents } => {
            if cluster_id == GATE_CLUSTER {
                (gate_command(message_contents), sequence)
            } else {
                (
                    Some(
                        CommandV::SendUnicast {
                            message_type: EmberOutgoingMessageType::EmberOutgoingDirect,
                            index_or_destination: receiver,
                            aps_frame: EmberApsFrameV {
                                profile_id,
                                cluster_id,
                                source_endpoint: endpoint,
                                destination_endpoint: endpoint,
                                options: 0x0100,
                                group_id: 0,
                                sequence,
                            },
                            message_tag: 1,
                            message_length: (message_contents.len() % 256) as u8,
                            message_contents,
                        },
                    ),
                    ((sequence + 1) % 256) as u8,
                )
            }
        },
        _ => (None, sequence),
    }
}

fn permit_of(values: &Vec<AttributeRecord>) -> (r: Option<bool>)
    ensures
        r == gate_permit(recs_view(values@)),
{
    let mut r: Option<bool> = None;
    let mut i: usize = 0;
    while i < values.len()
        invariant
            i <= values@.len(),
            r == gate_permit(recs_view(values@).take(i as int)),
        decreases values@.len() - i,
    {
        let ghost before = recs_view(values@).take(i as int);
        let v = &values[i];
        if v.identifier == 0 {
            match v.data {
                AttributeValue::Bool { val } => {
                    r = Some(val);
                },
                _ => {},
            }
        }
        i += 1;
        proof {
            let now = recs_view(values@).take(i as int);
            assert(now.drop_last() =~= before);
            assert(now.last() == values@[i - 1]@);
        }
    }
    proof {
        assert(recs_view(values@).take(values@.len() as int) =~= recs_view(values@));
    }
    r
}

/// The command of a frame to the coordinator's cluster.
pub open spec fn gate_command(b: Seq<u8>) -> Option<CommandV> {
    match gate_write(b) {
        Some(recs) => match gate_permit(recs) {
            Some(open) => Some(
                CommandV::PermitJoining {
                    duration: if open {
                        JOIN_DURATION
                    } else {
                        0
                    },
                },
            ),
            None => None,
        },
        None => None,
    }
}

#[verifier::spinoff_prover]
fn gate_command_of(message_contents: &Vec<u8>) -> (r: Option<CommandData>)
    ensures
        match r {
            Some(c) => Some(c@),
            None => None,
        } == gate_command(message_contents@),
{
    match ZclFrame::from_buf(message_contents.as_slice(), GATE_CLUSTER, CommandExtensionType::Raw) {
        Ok(f) => match f.command {
            Command::Generic(GenericCommand::WriteAttributes { values }) => match permit_of(&values) {
                Some(open) => Some(
                    CommandData::PermitJoining {
                        duration: if open {
                            JOIN_DURATION
                        } else {
                            0
                        },
                    },
                ),
                None => None,
            },
            _ => None,
        },
        Err(_) => None,
    }
}

/// What the provider sends for a message of the coordinator, as
/// `outgoing_action` says.
#[verifier::spinoff_prover]
pub fn outgoing_command(m: &ZigbeeData, sequence: u8) -> (r: (Option<CommandData>, u8))
    ensures
        (match r.0 {
            Some(c) => Some(c@),
            None => None,
        }, r.1) == outgoing_action(m@, sequence),
{
    match m {
        ZigbeeData::OutgoingMessage { profile_id, cluster_id, endpoint, receiver, message_contents } => {
            if *cluster_id == GATE_CLUSTER {
                (gate_command_of(message_contents), sequence)
            } else {
                let c = CommandData::SendUnicast {
                    message_type: EmberOutgoingMessageType::EmberOutgoingDirect,
                    index_or_destination: *receiver,
                    aps_frame: EmberApsFrame {
                        profile_id: *profile_id,
                        cluster_id: *cluster_id,
                        source_endpoint: *endpoint,
                        destination_endpoint: *endpoint,
                        options: 0x0100,
                        group_id: 0,
                        sequence,
                    },
                    message_tag: 1,
                    message_length: (message_contents.len() % 256) as u8,
                    message_contents: message_contents.clone(),
                };
                (Some(c), sequence.wrapping_add(1))
            }
        },
        _ => (None, sequence),
    }
}

/// What the provider does with a response or callback of the
/// co-processor.
#[derive(Debug)]
pub enum ProviderAction {
    /// Pass a message, a node or the local address on to the coordinator.
    Forward(ZigbeeData),
    /// Hand the response to the command that waits for its sequence number.
    Answer(ResponseData),
    /// Nothing to do.
    Ignore,
}

/// The model of a provider action.
pub enum ProviderActionV {
    Forward(ZigbeeDataV),
    Answer(ResponseV),
    Ignore,
}

impl View for ProviderAction {
    type V = ProviderActionV;

    open spec fn view(&self) -> ProviderActionV {
        match self {
            ProviderAction::Forward(d) => ProviderActionV::Forward(d@),
            ProviderAction::Answer(r) => ProviderActionV::Answer(r@),
            ProviderAction::Ignore => ProviderActionV::Ignore,
        }
    }
}

/// The frame that reports the coordinator's attribute 0: no flags, sequence
/// number 0, a report of attribute 0 as a boolean.
pub open spec fn gate_report(open: bool) -> Seq<u8> {
    seq![0x00u8, 0x00, 0x0a, 0x00, 0x00, 0x10, if open { 1u8 } else { 0u8 }]
}

/// What the provider does with a response or callback, and the EUI64 of
/// the last sender it keeps for the next incoming message: the network
/// opening or closing is reported on the coordinator's cluster; a sender's EUI64
/// is kept; a joining child is passed on as a node that joined, and so is a
/// device the trust center let in with the preconfigured key or the key in
/// the clear; an incoming message is passed on with the kept EUI64, which
/// is then forgotten; other stack statuses are ignored; anything else
/// answers a command.
pub open spec fn response_action(r: ResponseV, last: Option<u64>) -> (ProviderActionV, Option<u64>) {
    match r {
        ResponseV::StackStatusHandler { status } => if status == EmberStatus::EmberNetworkOpened || status
            == EmberStatus::EmberNetworkClosed {
            (
                ProviderActionV::Forward(
                    ZigbeeDataV::IncomingMessage {
                        profile_id: 260,
                        cluster_id: GATE_CLUSTER,
                        source_endpoint: 0,
                        sender: 0,
                        sender_eui64: Some(0),
                        message_contents: gate_report(status == EmberStatus::EmberNetworkOpened),
                    },
                ),
                last,
            )
        } else {
            (ProviderActionV::Ignore, last)
        },
        ResponseV::IncomingSenderEui64Handler { sender_eui64 } => (ProviderActionV::Ignore, Some(sender_eui64)),
        ResponseV::ChildJoinHandler { child_id, child_eui64, .. } => (
            ProviderActionV::Forward(
                ZigbeeDataV::IncomingNode { node_id: child_id, node_eui64: child_eui64, is_child_join: true },
            ),
            last,
        ),
        ResponseV::TrustCenterJoinHandler { new_node_id, new_node_eui64, policy_decision, .. } => (
            ProviderActionV::Forward(
                ZigbeeDataV::IncomingNode {
                    node_id: new_node_id,
                    node_eui64: new_node_eui64,
                    is_child_join: policy_decision == EmberJoinDecision::EmberUsePreconfiguredKey
                        || policy_decision == EmberJoinDecision::EmberSendKeyInTheClear,
                },
            ),
            last,
        ),
        ResponseV::IncomingMessageHandler { aps_frame, sender, message_contents, .. } => (
            ProviderActionV::Forward(
                ZigbeeDataV::IncomingMessage {
                    profile_id: aps_frame.profile_id,
                    cluster_id: aps_frame.cluster_id,
                    source_endpoint: aps_frame.source_endpoint,
                    sender,
                    sender_eui64: last,
                    message_contents,
                },
            ),
            None,
        ),
        _ => (ProviderActionV::Answer(r), last),
    }
}

/// The report of the coordinator's attribute 0, written as a ZCL frame.
fn gate_report_bytes(open: bool) -> (r: Result<Vec<u8>, crate::zigbee::zcl::Error>)
    ensures
        r matches Ok(v) && v@ == gate_report(open),
{
    let rec = AttributeRecord { identifier: 0, data: AttributeValue::Bool { val: open } };
    let values = vec![rec];
    let ghost rv = RecV { identifier: 0, data: AttrV { id: 0x10, data: AttrData::Flag(open) } };
    proof {
        assert(recs_view(values@) =~= seq![rv]);
    }
    let frame = ZclFrame::from_command(Command::Generic(GenericCommand::ReportAttributes { values }));
    proof {
        let z: u8 = 0;
        assert(((z << 4u8) | ((z & 1) << 3u8) | ((z & 1) << 2u8) | (z & 3)) == 0) by (bit_vector)
            requires
                z == 0,
        ;
        assert(frame.control.spec_byte() == 0);
        assert(kind_of(0x10) == Some(AttrKind::Boolean));
        assert(attr_bytes(rv.data) matches Ok(s) && s =~= seq![0x10u8, if open { 1u8 } else { 0u8 }]);
        assert(seq![rv].drop_last() =~= Seq::<RecV>::empty());
        assert(recs_bytes(Seq::<RecV>::empty()) == Ok::<Seq<u8>, FormatError>(Seq::<u8>::empty()));
        assert(le16(0) =~= seq![0x00u8, 0x00]);
        assert(recs_bytes(seq![rv]) matches Ok(s) && s =~= seq![0x00u8, 0x00, 0x10, if open { 1u8 } else { 0u8 }]);
    }
    let r = frame.to_bytes();
    proof {
        assert(r matches Ok(v) && v@ =~= gate_report(open));
    }
    r
}

/// What the provider does with a response or callback, as
/// `response_action` says.
pub fn on_response(r: ResponseData, last_sender_eui64: Option<u64>) -> (out: (ProviderAction, Option<u64>))
    ensures
        (out.0@, out.1) == response_action(r@, last_sender_eui64),
{
    match r {
        ResponseData::StackStatusHandler { status } => {
            let opened = status == EmberStatus::EmberNetworkOpened;
            if opened || status == EmberStatus::EmberNetworkClosed {
                (
                    ProviderAction::Forward(
                        ZigbeeData::IncomingMessage {
                            profile_id: 260,
                            cluster_id: GATE_CLUSTER,
                            source_endpoint: 0,
                            sender: 0,
                            sender_eui64: Some(0),
                            message_contents: match gate_report_bytes(opened) {
                                Ok(v) => v,
                                Err(_) => Vec::new(),
                            },
                        },
                    ),
                    last_sender_eui64,
                )
            } else {
                (ProviderAction::Ignore, last_sender_eui64)
            }
        },
        ResponseData::IncomingSenderEui64Handler { sender_eui64 } => (ProviderAction::Ignore, Some(sender_eui64)),
        ResponseData::ChildJoinHandler { child_id, child_eui64, .. } => (
            ProviderAction::Forward(
                ZigbeeData::IncomingNode { node_id: child_id, node_eui64: child_eui64, is_child_join: true },
            ),
            last_sender_eui64,
        ),
        ResponseData::TrustCenterJoinHandler { new_node_id, new_node_eui64, policy_decision, .. } => {
            let joined = policy_decision == EmberJoinDecision::EmberUsePreconfiguredKey || policy_decision
                == EmberJoinDecision::EmberSendKeyInTheClear;
            (
                ProviderAction::Forward(
                    ZigbeeData::IncomingNode { node_id: new_node_id, node_eui64: new_node_eui64, is_child_join: joined },
                ),
                last_sender_eui64,
            )
        },
        ResponseData::IncomingMessageHandler { aps_frame, sender, message_contents, .. } => (
            ProviderAction::Forward(
                ZigbeeData::IncomingMessage {
                    profile_id: aps_frame.profile_id,
                    cluster_id: aps_frame.cluster_id,
                    source_endpoint: aps_frame.source_endpoint,
                    sender,
                    sender_eui64: last_sender_eui64,
                    message_contents,
                },
            ),
            None,
        ),
        _ => (ProviderAction::Answer(r), last_sender_eui64),
    }
}

// ---------------------------------------------------------------- gate

/// How the commands of a device's cluster specific frames are read: the
/// standard ones, or the Tuya ones.
#[derive(Debug, Clone, Copy, PartialEq, Eq, Structural)]
pub enum SwZigbeeExtensionType {
    Raw,
    Tuya,
}

impl Default for SwZigbeeExtensionType {
    fn default() -> (r: Self)
        ensures
            r == SwZigbeeExtensionType::Raw,
    {
        SwZigbeeExtensionType::Raw
    }
}

impl SwZigbeeExtensionType {
    /// The ZCL reading that goes with the extension.
    pub fn command_extension(&self) -> (r: CommandExtensionType)
        ensures
            r == (if *self == SwZigbeeExtensionType::Tuya {
                CommandExtensionType::Tuya
            } else {
                CommandExtensionType::Raw
            }),
    {
        match self {
            SwZigbeeExtensionType::Raw => CommandExtensionType::Raw,
            SwZigbeeExtensionType::Tuya => CommandExtensionType::Tuya,
        }
    }
}

/// A device's Zigbee settings: the coordinator it belongs to and how its frames
/// are read.
#[derive(Debug, Clone, PartialEq, Eq)]
pub struct SwZigbeeEvent {
    pub server_id: Option<String>,
    pub extension_type: SwZigbeeExtensionType,
}

/// Where a value a device receives comes from.
#[derive(Debug, Clone, PartialEq, Eq)]
pub enum SwDataSource {
    NoSource,
    Mqtt { topic: String },
    Zb { cluster_id: u16, eui64: u64 },
}

/// What a Zigbee device sends: an attribute value, or a command.
#[derive(Debug)]
pub enum SwZbDataValue {
    Attribute { identifier: u16, value: AttributeValue },
    ZclCommand(Command),
}

/// The model of what a Zigbee device sends.
pub enum SwZbDataValueV {
    Attribute { identifier: u16, value: AttrV },
    ZclCommand(ZclCommandV),
}

impl View for SwZbDataValue {
    type V = SwZbDataValueV;

    open spec fn view(&self) -> SwZbDataValueV {
        match self {
            SwZbDataValue::Attribute { identifier, value } => SwZbDataValueV::Attribute {
                identifier: *identifier,
                value: value@,
            },
            SwZbDataValue::ZclCommand(c) => SwZbDataValueV::ZclCommand(c@),
        }
    }
}

/// The values of the records of a read attributes response that carry
/// one.
pub open spec fn read_values(s: Seq<ReadRecV>) -> Seq<SwZbDataValueV>
    decreases s.len(),
{
    if s.len() == 0 {
        Seq::empty()
    } else {
        read_values(s.drop_last()) + match s.last().data {
            Some(v) => seq![SwZbDataValueV::Attribute { identifier: s.last().identifier, value: v }],
            None => Seq::empty(),
        }
    }
}

/// The attribute value a Tuya data point is passed on as.
pub open spec fn dp_value_attr(v: DpValueV) -> AttrV {
    match v {
        DpValueV::Raw(c, s) => AttrV { id: 0x43, data: AttrData::Counted(c as nat, s) },
        DpValueV::Boolean(_, b) => AttrV { id: 0x10, data: AttrData::Flag(b) },
        DpValueV::Value(_, x) => AttrV { id: 0x0b, data: AttrData::Num(x as int) },
        DpValueV::String(c, s) => AttrV { id: 0x44, data: AttrData::Counted(c as nat, s) },
        DpValueV::Enum(_, x) => AttrV { id: 0x30, data: AttrData::Num(x as int) },
        DpValueV::Bitmap(c, s) => AttrV { id: 0x43, data: AttrData::Counted(c as nat, s) },
    }
}

/// What an incoming ZCL frame gives its device, if it could be read: the
/// values a read attributes response carries, every value of an attribute
/// report, the data point of a Tuya data response or report (its
/// identifier as the attribute), and any other command as it is.
pub open spec fn frame_values(f: ZclCommandFrameV) -> Seq<SwZbDataValueV> {
    match f.command {
        ZclCommandV::Generic(g) => if g.id == 0x01 && g.body is ReadRecs {
            read_values(g.body->ReadRecs_0)
        } else if g.id == 0x0a && g.body is Recs {
            g.body->Recs_0.map_values(
                |r: RecV| SwZbDataValueV::Attribute { identifier: r.identifier, value: r.data },
            )
        } else {
            seq![SwZbDataValueV::ZclCommand(f.command)]
        },
        ZclCommandV::Tuya(t) => if (t.id == 0x01 || t.id == 0x02) && t.data is Some {
            seq![
                SwZbDataValueV::Attribute {
                    identifier: t.data->Some_0.dp_id as u16,
                    value: dp_value_attr(t.data->Some_0.value),
                },
            ]
        } else {
            seq![SwZbDataValueV::ZclCommand(f.command)]
        },
        _ => seq![SwZbDataValueV::ZclCommand(f.command)],
    }
}

/// What an incoming ZCL frame sent on a cluster gives its device: nothing
/// where the frame cannot be read.
pub open spec fn incoming_data(b: Seq<u8>, cluster_id: u16, ext: CommandExtensionType) -> Option<
    Seq<SwZbDataValueV>,
> {
    match zcl_parse(b) {
        Err(_) => None,
        Ok(h) => match command_parse(h.command, h.control.frame_type, cluster_id, ext) {
            Err(_) => None,
            Ok(c) => Some(
                frame_values(
                    ZclCommandFrameV {
                        control: h.control,
                        manufacturer_code: h.manufacturer_code,
                        transaction_sequence_number: h.transaction_sequence_number,
                        command: c,
                    },
                ),
            ),
        },
    }
}

/// The models of some device values.
pub open spec fn values_view(s: Seq<SwZbDataValue>) -> Seq<SwZbDataValueV> {
    s.map_values(|v: SwZbDataValue| v@)
}

fn read_values_of(values: Vec<ReadAttributeRecord>) -> (r: Vec<SwZbDataValue>)
    ensures
        values_view(r@) == read_values(read_recs_view(values@)),
{
    let ghost orig = read_recs_view(values@);
    let mut values = values;
    let mut out: Vec<SwZbDataValue> = Vec::new();
    let ghost mut k: int = 0;
    proof {
        assert(read_recs_view(values@) =~= orig.skip(0));
        assert(orig.take(0) =~= Seq::<ReadRecV>::empty());
        assert(values_view(out@) =~= Seq::<SwZbDataValueV>::empty());
    }
    while values.len() > 0
        invariant
            0 <= k <= orig.len(),
            read_recs_view(values@) == orig.skip(k),
            values_view(out@) == read_values(orig.take(k)),
        decreases values@.len(),
    {
        let ghost before = values@;
        let rec = values.remove(0);
        proof {
            assert(read_recs_view(before)[0] == rec@);
            assert(read_recs_view(values@) =~= read_recs_view(before).drop_first());
            assert(orig.take(k + 1).drop_last() =~= orig.take(k));
            assert(orig.take(k + 1).last() == orig[k]);
            assert(orig[k] == rec@);
        }
        let ghost out_before = values_view(out@);
        match rec.data {
            Some(v) => {
                out.push(SwZbDataValue::Attribute { identifier: rec.identifier, value: v });
                proof {
                    assert(values_view(out@) =~= out_before.push(values_view(out@).last()));
                }
            },
            None => {},
        }
        proof {
            k = k + 1;
            assert(read_recs_view(values@) =~= orig.skip(k));
            assert(values_view(out@) =~= read_values(orig.take(k)));
        }
    }
    proof {
        assert(orig.skip(k).len() == 0);
        assert(orig.take(k) =~= orig);
    }
    out
}

fn report_values_of(values: Vec<AttributeRecord>) -> (r: Vec<SwZbDataValue>)
    ensures
        values_view(r@) == recs_view(values@).map_values(
            |r: RecV| SwZbDataValueV::Attribute { identifier: r.identifier, value: r.data },
        ),
{
    let ghost orig = recs_view(values@);
    let ghost target = orig.map_values(
        |r: RecV| SwZbDataValueV::Attribute { identifier: r.identifier, value: r.data },
    );
    let mut values = values;
    let mut out: Vec<SwZbDataValue> = Vec::new();
    let ghost mut k: int = 0;
    proof {
        assert(recs_view(values@) =~= orig.skip(0));
        assert(values_view(out@) =~= target.take(0));
    }
    while values.len() > 0
        invariant
            0 <= k <= orig.len(),
            target.len() == orig.len(),
            target == orig.map_values(
                |r: RecV| SwZbDataValueV::Attribute { identifier: r.identifier, value: r.data },
            ),
            recs_view(values@) == orig.skip(k),
            values_view(out@) == target.take(k),
        decreases values@.len(),
    {
        let ghost before = values@;
        let rec = values.remove(0);
        proof {
            assert(recs_view(before)[0] == rec@);
            assert(recs_view(values@) =~= recs_view(before).drop_first());
            assert(orig[k] == rec@);
        }
        let ghost item = SwZbDataValueV::Attribute { identifier: rec.identifier, value: rec.data@ };
        let ghost out_before = values_view(out@);
        proof {
            assert(target[k] == item);
            assert(target.take(k + 1) =~= target.take(k).push(item));
        }
        out.push(SwZbDataValue::Attribute { identifier: rec.identifier, value: rec.data });
        proof {
            assert(values_view(out@) =~= out_before.push(item));
            k = k + 1;
            assert(recs_view(values@) =~= orig.skip(k));
            assert(values_view(out@) =~= target.take(k));
        }
    }
    proof {
        assert(target.take(k) =~= target);
    }
    out
}

fn frame_values_of(f: ZclFrame) -> (r: Vec<SwZbDataValue>)
    ensures
        values_view(r@) == frame_values(f@),
{
    let ghost fv = f@;
    let out = match f.command {
        Command::Generic(GenericCommand::ReadAttributesResponse { values }) => read_values_of(values),
        Command::Generic(GenericCommand::ReportAttributes { values }) => report_values_of(values),
        Command::Tuya(TuyaCommand::TyDataResponse { data, .. }) => {
            let av = AttributeValue::from(data.value);
            vec![SwZbDataValue::Attribute { identifier: data.dp_id as u16, value: av }]
        },
        Command::Tuya(TuyaCommand::TyDataReport { data, .. }) => {
            let av = AttributeValue::from(data.value);
            vec![SwZbDataValue::Attribute { identifier: data.dp_id as u16, value: av }]
        },
        c => vec![SwZbDataValue::ZclCommand(c)],
    };
    proof {
        assert(values_view(out@) =~= frame_values(fv));
    }
    out
}

/// What an incoming ZCL frame sent on a cluster gives its device, as
/// `incoming_data` says.
pub fn incoming_values(b: &[u8], cluster_id: u16, ext: CommandExtensionType) -> (r: Option<Vec<SwZbDataValue>>)
    ensures
        match incoming_data(b@, cluster_id, ext) {
            Some(s) => r matches Some(v) && values_view(v@) == s,
            None => r is None,
        },
{
    match ZclFrame::from_buf(b, cluster_id, ext) {
        Ok(f) => Some(frame_values_of(f)),
        Err(_) => None,
    }
}

// ---------------------------------------------------------------- nodes

/// The nodes the coordinator has heard of: each short address with its EUI64,
/// and back.
pub struct ZbNodes {
    pub eui_map: HashMap<u16, u64>,
    pub rev_eui_map: HashMap<u64, u16>,
}

impl ZbNodes {
    /// No node yet.
    pub fn new() -> (r: Self)
        ensures
            r.eui_map@ == Map::<u16, u64>::empty(),
            r.rev_eui_map@ == Map::<u64, u16>::empty(),
    {
        ZbNodes { eui_map: HashMap::new(), rev_eui_map: HashMap::new() }
    }

    /// Notes that the node with `eui64` has the short address `node_id`,
    /// and tells whether that is news: the EUI64 was unknown or had
    /// another address (news the coordinator stores in its run configuration).
    pub fn note(&mut self, node_id: u16, eui64: u64) -> (new: bool)
        ensures
            new == !(old(self).rev_eui_map@.contains_key(eui64) && old(self).rev_eui_map@[eui64] == node_id),
            final(self).eui_map@ == old(self).eui_map@.insert(node_id, eui64),
            final(self).rev_eui_map@ == old(self).rev_eui_map@.insert(eui64, node_id),
    {
        broadcast use vstd::std_specs::hash::group_hash_axioms;

        let new = match self.rev_eui_map.get(&eui64) {
            Some(n) => *n != node_id,
            None => true,
        };
        self.eui_map.insert(node_id, eui64);
        self.rev_eui_map.insert(eui64, node_id);
        new
    }

    /// The EUI64 of the node with a short address.
    pub fn eui_of(&self, node_id: u16) -> (r: Option<u64>)
        ensures
            r == (if self.eui_map@.contains_key(node_id) {
                Some(self.eui_map@[node_id])
            } else {
                None
            }),
    {
        broadcast use vstd::std_specs::hash::group_hash_axioms;

        match self.eui_map.get(&node_id) {
            Some(e) => Some(*e),
            None => None,
        }
    }

    /// The short address of the node with an EUI64.
    pub fn short_of(&self, eui64: u64) -> (r: Option<u16>)
        ensures
            r == (if self.rev_eui_map@.contains_key(eui64) {
                Some(self.rev_eui_map@[eui64])
            } else {
                None
            }),
    {
        broadcast use vstd::std_specs::hash::group_hash_axioms;

        match self.rev_eui_map.get(&eui64) {
            Some(n) => Some(*n),
            None => None,
        }
    }
}

// ---------------------------------------------------------------- outgoing

/// A message the coordinator sends a device: the cluster and endpoint it goes
/// to, and its bytes.
#[derive(Debug, Clone, PartialEq, Eq)]
pub struct GateMessage {
    pub cluster_id: u16,
    pub endpoint: u8,
    pub message_contents: Vec<u8>,
}

/// A ZDO command as the coordinator sends it to the device `zb_id`: a bind
/// request binds the device's endpoint 1 to the coordinator's endpoint 1.
pub open spec fn zdo_for_device(c: ZdoV, zb_id: u64, local_eui64: u64) -> ZdoV {
    match c {
        ZdoV::BindReq(r) => ZdoV::BindReq(
            crate::zigbee::zdp::ZdoBindReq {
                src_address: zb_id,
                src_endp: 1,
                cluster_id: r.cluster_id,
                dst_addr: BindReqAddr::Long { dst_addr: local_eui64, dst_endp: 1 },
            },
        ),
        _ => c,
    }
}

/// The message of a ZDO command to the device `zb_id`: the command's own
/// cluster where it has one, else the given one; endpoint 0 for a bind
/// request; a ZDP frame with the given sequence number.
pub open spec fn zdo_outgoing(
    c: ZdoV,
    zb_id: u64,
    local_eui64: u64,
    cluster_id: u16,
    endpoint: u8,
    sequence_number: u8,
) -> Result<(u16, u8, Seq<u8>), crate::zigbee::zdp::Error> {
    let d = zdo_for_device(c, zb_id, local_eui64);
    match crate::zigbee::zdp::zdo_bytes(d) {
        Ok(s) => Ok(
            (
                if zdo_cluster(d) != 0 {
                    zdo_cluster(d)
                } else {
                    cluster_id
                },
                if c is BindReq {
                    0
                } else {
                    endpoint
                },
                seq![sequence_number] + s,
            ),
        ),
        Err(e) => Err(crate::zigbee::zdp::Error::Format(e)),
    }
}

/// The message of a ZDO command to the device `zb_id`, as `zdo_outgoing`
/// says.
pub fn zdo_message(
    command: ZdoCommand,
    zb_id: u64,
    local_eui64: u64,
    cluster_id: u16,
    endpoint: u8,
    sequence_number: u8,
) -> (r: Result<GateMessage, crate::zigbee::zdp::Error>)
    ensures
        match zdo_outgoing(command@, zb_id, local_eui64, cluster_id, endpoint, sequence_number) {
            Ok((c, e, s)) => r matches Ok(m) && m.cluster_id == c && m.endpoint == e && m.message_contents@ == s,
            Err(e) => r == Err::<GateMessage, crate::zigbee::zdp::Error>(e),
        },
{
    let mut command = command;
    let mut endpoint = endpoint;
    match command {
        ZdoCommand::BindReq(ref mut br) => {
            br.src_address = zb_id;
            br.src_endp = 1;
            br.dst_addr = BindReqAddr::Long { dst_addr: local_eui64, dst_endp: 1 };
            endpoint = 0;
        },
        _ => {},
    }
    let mut frame = ZdpFrame::from_command(command);
    frame.sequence_number = sequence_number;
    let cluster = if frame.command_no != 0 {
        frame.command_no
    } else {
        cluster_id
    };
    let bytes = frame.to_bytes()?;
    Ok(GateMessage { cluster_id: cluster, endpoint, message_contents: bytes })
}

/// Whether an attribute of a device is written as a Tuya data point: the
/// device reads Tuya frames and the cluster is the Tuya one.
pub open spec fn writes_tuya(ext: SwZigbeeExtensionType, cluster_id: u16) -> bool {
    ext == SwZigbeeExtensionType::Tuya && cluster_id == 0xef00
}

/// Whether an attribute of a device is written as a Tuya data point, as
/// `writes_tuya` says.
pub fn uses_tuya(ext: SwZigbeeExtensionType, cluster_id: u16) -> (r: bool)
    ensures
        r == writes_tuya(ext, cluster_id),
{
    ext == SwZigbeeExtensionType::Tuya && cluster_id == 0xef00
}

/// The command that writes a Tuya data point, cluster specific (frame type
/// 1), with sequence number 1.
pub fn tuya_write(dp_id: u8, value: DpDataValue) -> (r: (Command, u8))
    ensures
        r.0@ == ZclCommandV::Tuya(
            TuyaV {
                id: 0x00,
                fields: le16(1),
                data: Some(crate::zigbee::zcl_command::DpV { dp_id, value: value@ }),
                tail: Seq::empty(),
            },
        ),
        r.1 == 1,
{
    (Command::Tuya(TuyaCommand::TyDataRequest { sequence_number: 1, data: DpData { dp_id, value } }), 1)
}

/// The command that writes one attribute, a general one (frame type 0).
pub fn attribute_write(identifier: u16, value: AttributeValue) -> (r: (Command, u8))
    ensures
        r.0@ == ZclCommandV::Generic(
            ZclGenericV { id: 0x02, body: GenericBody::Recs(seq![RecV { identifier, data: value@ }]) },
        ),
        r.1 == 0,
{
    let rec = AttributeRecord { identifier, data: value };
    let ghost rv = rec@;
    let values = vec![rec];
    proof {
        assert(recs_view(values@) =~= seq![rv]);
    }
    (Command::Generic(GenericCommand::WriteAttributes { values }), 0)
}

/// The frame control of the coordinator's frames: the default response is
/// disabled unless debugging, direction 0, no manufacturer code.
pub open spec fn gate_control(frame_type: u8, debug: u8) -> ZclFrameControl {
    ZclFrameControl {
        disable_default_response: debug == 0,
        direction: 0,
        manufacturer_specific: 0,
        frame_type,
    }
}

/// The bytes of the coordinator's ZCL frame carrying a command: a frame type that
/// does not fit its two bits, or a command that cannot be written, is
/// refused.
pub fn zcl_message(command: Command, frame_type: u8, debug: u8, transaction_sequence_number: u8) -> (r: Result<
    Vec<u8>,
    crate::zigbee::zcl::Error,
>)
    ensures
        frame_type >= 4 ==> r == Err::<Vec<u8>, crate::zigbee::zcl::Error>(
            crate::zigbee::zcl::Error::Format(FormatError::TooWide),
        ),
        frame_type < 4 ==> match crate::zigbee::zcl::command_bytes(command@) {
            Ok(cb) => r matches Ok(v) && v@ == crate::zigbee::zcl::zcl_bytes(
                crate::zigbee::zcl::ZclFrameV {
                    control: gate_control(frame_type, debug),
                    manufacturer_code: None,
                    transaction_sequence_number,
                    command: cb,
                },
            ),
            Err(e) => r == Err::<Vec<u8>, crate::zigbee::zcl::Error>(crate::zigbee::zcl::Error::Format(e)),
        },
{
    let frame = ZclFrame {
        control: ZclFrameControl {
            disable_default_response: debug == 0,
            direction: 0,
            manufacturer_specific: 0,
            frame_type,
        },
        manufacturer_code: None,
        transaction_sequence_number,
        command,
    };
    frame.to_bytes()
}

/// The transaction numbers the coordinator gives its next ZCL and ZDP
/// frames.
pub struct TransactionCounters {
    pub zcl: u8,
    pub zdp: u8,
}

impl TransactionCounters {
    /// Both counters at 0.
    pub fn new() -> (r: Self)
        ensures
            r.zcl == 0 && r.zdp == 0,
    {
        TransactionCounters { zcl: 0, zdp: 0 }
    }

    /// The ZDO message of a command, numbered by the ZDP counter, which
    /// then moves on by one (wrapping), whether or not the message could be
    /// written.
    pub fn next_zdo_message(
        &mut self,
        command: ZdoCommand,
        zb_id: u64,
        local_eui64: u64,
        cluster_id: u16,
        endpoint: u8,
    ) -> (r: Result<GateMessage, crate::zigbee::zdp::Error>)
        ensures
            final(self).zcl == old(self).zcl,
            final(self).zdp == (old(self).zdp + 1) % 256,
            match zdo_outgoing(command@, zb_id, local_eui64, cluster_id, endpoint, old(self).zdp) {
                Ok((c, e, s)) => r matches Ok(m) && m.cluster_id == c && m.endpoint == e && m.message_contents@
                    == s,
                Err(e) => r == Err::<GateMessage, crate::zigbee::zdp::Error>(e),
            },
    {
        let n = self.zdp;
        self.zdp = self.zdp.wrapping_add(1);
        zdo_message(command, zb_id, local_eui64, cluster_id, endpoint, n)
    }

    /// The ZCL frame of a command, numbered by the ZCL counter, which then
    /// moves on by one (wrapping), whether or not the frame could be
    /// written.
    pub fn next_zcl_message(&mut self, command: Command, frame_type: u8, debug: u8) -> (r: Result<
        Vec<u8>,
        crate::zigbee::zcl::Error,
    >)
        ensures
            final(self).zdp == old(self).zdp,
            final(self).zcl == (old(self).zcl + 1) % 256,
            frame_type >= 4 ==> r == Err::<Vec<u8>, crate::zigbee::zcl::Error>(
                crate::zigbee::zcl::Error::Format(FormatError::TooWide),
            ),
            frame_type < 4 ==> match crate::zigbee::zcl::command_bytes(command@) {
                Ok(cb) => r matches Ok(v) && v@ == crate::zigbee::zcl::zcl_bytes(
                    crate::zigbee::zcl::ZclFrameV {
                        control: gate_control(frame_type, debug),
                        manufacturer_code: None,
                        transaction_sequence_number: old(self).zcl,
                        command: cb,
                    },
                ),
                Err(e) => r == Err::<Vec<u8>, crate::zigbee::zcl::Error>(crate::zigbee::zcl::Error::Format(e)),
            },
    {
        let n = self.zcl;
        self.zcl = self.zcl.wrapping_add(1);
        zcl_message(command, frame_type, debug, n)
    }
}

} // verus!
