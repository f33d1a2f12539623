//! The typed EZSP catalogue: the status, configuration, policy and value
//! enumerations, the structures commands and callbacks carry, the commands
//! this host sends, written to their frame identifier and parameter bytes,
//! and the responses and callbacks it receives, read from theirs. Numbers
//! are written least significant byte first, an enumeration as one byte.

use vstd::prelude::*;
use crate::zigbee::ezsp::{RawCommand, RawResponse};
use crate::zigbee::zcl_command::{
    append_bytes, copy_into, ids_bytes, le16, le32, push16, push32, rd16, rd32, read16, read32, write_ids,
    FormatError,
};
use crate::zigbee::zdp::{le64, push64, rd64, read64};

verus! {

/// The status codes of the EmberZNet stack; any other byte is kept as it is.
#[derive(Debug, Clone, Copy, PartialEq, Eq, Structural)]
pub enum EmberStatus {
    /// The generic 'no error' message.
    EmberSuccess,
    /// The generic 'fatal error' message.
    EmberErrFatal,
    /// An invalid value was passed as an argument to a function
    EmberBadArgument,
    /// The manufacturing and stack token format in non-volatile memory is different than what the stack expects (returned at initialization).
    EmberEepromMfgStackVersionMismatch,
    /// The manufacturing token format in non-volatile memory is different than what the stack expects (returned at initialization).
    EmberEepromMfgVersionMismatch,
    /// The stack token format in non-volatile memory is different than what the stack expects (returned at initialization).
    EmberEepromStackVersionMismatch,
    /// There are no more buffers.
    EmberNoBuffers,
    /// Specified an invalid baud rate.
    EmberSerialInvalidBaudRate,
    /// Specified an invalid serial port.
    EmberSerialInvalidPort,
    /// Tried to send too much data.
    EmberSerialTxOverflow,
    /// There was not enough space to store a received character and the character was dropped.
    EmberSerialRxOverflow,
    /// Detected a UART framing error.
    EmberSerialRxFrameError,
    /// Detected a UART parity error.
    EmberSerialRxParityError,
    /// There is no received data to process.
    EmberSerialRxEmpty,
    /// The receive interrupt was not handled in time, and a character was dropped.
    EmberSerialRxOverrunError,
    /// The MAC transmit queue is full.
    EmberMacTransmitQueueFull,
    /// MAC header FCR error on receive.
    EmberMacUnknownHeaderType,
    /// The MAC is busy looking for networks.
    EmberMacScanning,
    /// No pending data exists for device doing a data poll.
    EmberMacNoData,
    /// Attempt to scan when we are joined to a network.
    EmberMacJoinedNetwork,
    /// Scan duration must be 0 to 14 inclusive. Attempt was made to scan with an incorrect duration value.
    EmberMacBadScanDuration,
    /// emberStartScan was called with an incorrect scan type.
    EmberMacIncorrectScanType,
    /// emberStartScan was called with an invalid channel mask.
    EmberMacInvalidChannelMask,
    /// Failed to scan current channel because we were unable to transmit the relevant MAC command.
    EmberMacCommandTransmitFailure,
    /// We expected to receive an ACK following the transmission, but the MAC level ACK was never received.
    EmberMacNoAckReceived,
    /// Indirect data message timed out before polled.
    EmberMacIndirectTimeout,
    /// The Simulated EEPROM is telling the application that there is at least one flash page to be erased. The GREEN status means the current page has not filled above the ERASE_CRITICAL_THRESHOLD. The application should call the function halSimEepromErasePage when it can to erase a page.
    EmberSimEepromErasePageGreen,
    /// The Simulated EEPROM is telling the application that there is at least one flash page to be erased. The RED status means the current page has filled above the ERASE_CRITICAL_THRESHOLD. Due to the shrinking availability of write space, there is a danger of data loss. The application must call the function halSimEepromErasePage as soon as possible to erase a page.
    EmberSimEepromErasePageRed,
    /// The Simulated EEPROM has run out of room to write any new data and the data trying to be set has been lost. This error code is the result of ignoring the SIM_EEPROM_ERASE_PAGE_RED error code. The application must call the function halSimEepromErasePage to make room for any further calls to set a token.
    EmberSimEepromFull,
    /// A fatal error has occurred while trying to write data to the Flash. The target memory attempting to be programmed is already programmed. The flash write routines were asked to flip a bit from a 0 to 1, which is physically impossible and the write was therefore inhibited. The data in the flash cannot be trusted after this error.
    EmberErrFlashWriteInhibited,
    /// A fatal error has occurred while trying to write data to the Flash and the write verification has failed. The data in the flash cannot be trusted after this error, and it is possible this error is the result of exceeding the life cycles of the flash.
    EmberErrFlashVerifyFailed,
    /// Attempt 1 to initialize the Simulated EEPROM has failed. This failure means the information already stored in Flash (or a lack thereof), is fatally incompatible with the token information compiled into the code image being run.
    EmberSimEepromInit1Failed,
    /// Attempt 2 to initialize the Simulated EEPROM has failed. This failure means Attempt 1 failed, and the token system failed to properly reload default tokens and reset the Simulated EEPROM.
    EmberSimEepromInit2Failed,
    /// Attempt 3 to initialize the Simulated EEPROM has failed. This failure means one or both of the tokens TOKEN_MFG_NVDATA_VERSION or TOKEN_STACK_NVDATA_VERSION were incorrect and the token system failed to properly reload default tokens and reset the Simulated EEPROM.
    EmberSimEepromInit3Failed,
    /// A fatal error has occurred while trying to write data to the flash, possibly due to write protection or an invalid address. The data in the flash cannot be trusted after this error, and it is possible this error is the result of exceeding the life cycles of the flash.
    EmberErrFlashProgFail,
    /// A fatal error has occurred while trying to erase flash, possibly due to write protection. The data in the flash cannot be trusted after this error, and it is possible this error is the result of exceeding the life cycles of the flash.
    EmberErrFlashEraseFail,
    /// The bootloader received an invalid message (failed attempt to go into bootloader).
    EmberErrBootloaderTrapTableBad,
    /// Bootloader received an invalid message (failed attempt to go into bootloader).
    EmberErrBootloaderTrapUnknown,
    /// The bootloader cannot complete the bootload operation because either an image was not found or the image exceeded memory bounds.
    EmberErrBootloaderNoImage,
    /// The APS layer attempted to send or deliver a message, but it failed.
    EmberDeliveryFailed,
    /// This binding index is out of range of the current binding table.
    EmberBindingIndexOutOfRange,
    /// This address table index is out of range for the current address table.
    EmberAddressTableIndexOutOfRange,
    /// An invalid binding table index was given to a function.
    EmberInvalidBindingIndex,
    /// The API call is not allowed given the current state of the stack.
    EmberInvalidCall,
    /// The link cost to a node is not known.
    EmberCostNotKnown,
    /// The maximum number of in-flight messages (i.e. EMBER_APS_UNICAST_MESSAGE_COUNT) has been reached.
    EmberMaxMessageLimitReached,
    /// The message to be transmitted is too big to fit into a single over-the-air packet.
    EmberMessageTooLong,
    /// The application is trying to delete or overwrite a binding that is in use.
    EmberBindingIsActive,
    /// The application is trying to overwrite an address table entry that is in use.
    EmberAddressTableEntryIsActive,
    /// Conversion is complete.
    EmberAdcConversionDone,
    /// Conversion cannot be done because a request is being processed.
    EmberAdcConversionBusy,
    /// Conversion is deferred until the current request has been processed.
    EmberAdcConversionDeferred,
    /// No results are pending.
    EmberAdcNoConversionPending,
    /// Sleeping (for a duration) has been abnormally interrupted and exited prematurely.
    EmberSleepInterrupted,
    /// The transmit hardware buffer underflowed.
    EmberPhyTxUnderflow,
    /// The transmit hardware did not finish transmitting a packet.
    EmberPhyTxIncomplete,
    /// An unsupported channel setting was specified.
    EmberPhyInvalidChannel,
    /// An unsupported power setting was specified.
    EmberPhyInvalidPower,
    /// The packet cannot be transmitted because the physical MAC layer is currently transmitting a packet. (This is used for the MAC backoff algorithm.)
    EmberPhyTxBusy,
    /// The transmit attempt failed because all CCA attempts indicated that the channel was busy
    EmberPhyTxCcaFail,
    /// The software installed on the hardware doesn't recognize the hardware radio type.
    EmberPhyOscillatorCheckFailed,
    /// The expected ACK was received after the last transmission.
    EmberPhyAckReceived,
    /// The stack software has completed initialization and is ready to send and receive packets over the air.
    EmberNetworkUp,
    /// The network is not operating.
    EmberNetworkDown,
    /// An attempt to join a network failed.
    EmberJoinFailed,
    /// After moving, a mobile node's attempt to re-establish contact with the network failed.
    EmberMoveFailed,
    /// An attempt to join as a router failed due to a ZigBee versus ZigBee Pro incompatibility. ZigBee devices joining ZigBee Pro networks (or vice versa) must join as End Devices, not Routers.
    EmberCannotJoinAsRouter,
    /// The local node ID has changed. The application can obtain the new node ID by calling emberGetNodeId().
    EmberNodeIdChanged,
    /// The local PAN ID has changed. The application can obtain the new PAN ID by calling emberGetPanId().
    EmberPanIdChanged,
    /// The network has been opened for joining.
    EmberNetworkOpened,
    /// The network has been closed for joining.
    EmberNetworkClosed,
    /// An attempt to join or rejoin the network failed because no router beacons could be heard by the joining node.
    EmberNoBeacons,
    /// An attempt was made to join a Secured Network using a pre-configured key, but the Trust Center sent back a Network Key in-the-clear when an encrypted Network Key was required.
    EmberReceivedKeyInTheClear,
    /// An attempt was made to join a Secured Network, but the device did not receive a Network Key.
    EmberNoNetworkKeyReceived,
    /// After a device joined a Secured Network, a Link Key was requested but no response was ever received.
    EmberNoLinkKeyReceived,
    /// An attempt was made to join a Secured Network without a pre-configured key, but the Trust Center sent encrypted data using a pre-configured key.
    EmberPreconfiguredKeyRequired,
    /// The node has not joined a network.
    EmberNotJoined,
    /// The chosen security level (the value of EMBER_SECURITY_LEVEL) is not supported by the stack.
    EmberInvalidSecurityLevel,
    /// A message cannot be sent because the network is currently overloaded.
    EmberNetworkBusy,
    /// The application tried to send a message using an endpoint that it has not defined.
    EmberInvalidEndpoint,
    /// The application tried to use a binding that has been remotely modified and the change has not yet been reported to the application.
    EmberBindingHasChanged,
    /// An attempt to generate random bytes failed because of insufficient random data from the radio.
    EmberInsufficientRandomData,
    /// There was an error in trying to encrypt at the APS Level. This could result from either an inability to determine the long address of the recipient from the short address (no entry in the binding table) or there is no link key entry in the table associated with the destination, or there was a failure to load the correct key into the encryption core.
    EmberApsEncryptionError,
    /// There was an attempt to form or join a network with security without calling emberSetInitialSecurityState() first.
    EmberSecurityStateNotSet,
    /// There was an attempt to set an entry in the key table using an invalid long address. An entry cannot be set using either the local device's or Trust Center's IEEE address. Or an entry already exists in the table with the same IEEE address. An Address of all zeros or all F's are not valid addresses in 802.15.4.
    EmberKeyTableInvalidAddress,
    /// There was an attempt to set a security configuration that is not valid given the other security settings.
    EmberSecurityConfigurationInvalid,
    /// There was an attempt to broadcast a key switch too quickly after broadcasting the next network key. The Trust Center must wait at least a period equal to the broadcast timeout so that all routers have a chance to receive the broadcast of the new network key.
    EmberTooSoonForSwitchKey,
    /// The message could not be sent because the link key corresponding to the destination is not authorized for use in APS data messages. APS Commands (sent by the stack) are allowed. To use it for encryption of APS data messages it must be authorized using a key agreement protocol (such as CBKE).
    EmberKeyNotAuthorized,
    /// The security data provided was not valid, or an integrity check failed.
    EmberSecurityDataInvalid,
    /// A ZigBee route error command frame was received indicating that a source routed message from this node failed en route.
    EmberSourceRouteFailure,
    /// A ZigBee route error command frame was received indicating that a message sent to this node along a many-to-one route failed en route. The route error frame was delivered by an ad-hoc search for a functioning route.
    EmberManyToOneRouteFailure,
    /// A critical and fatal error indicating that the version of the stack trying to run does not match with the chip it is running on. The software (stack) on the chip must be replaced with software that is compatible with the chip.
    EmberStackAndHardwareMismatch,
    /// An index was passed into the function that was larger than the valid range.
    EmberIndexOutOfRange,
    /// There are no empty entries left in the table.
    EmberTableFull,
    /// The requested table entry has been erased and contains no valid data.
    EmberTableEntryErased,
    /// The requested function cannot be executed because the library that contains the necessary functionality is not present.
    EmberLibraryNotPresent,
    /// The stack accepted the command and is currently processing the request. The results will be returned via an appropriate handler.
    EmberOperationInProgress,
    /// This error is reserved for customer application use. This will never be returned from any portion of the network stack or HAL.
    EmberApplicationError0,
    /// This error is reserved for customer application use. This will never be returned from any portion of the network stack or HAL.
    EmberApplicationError1,
    /// This error is reserved for customer application use. This will never be returned from any portion of the network stack or HAL.
    EmberApplicationError2,
    /// This error is reserved for customer application use. This will never be returned from any portion of the network stack or HAL.
    EmberApplicationError3,
    /// This error is reserved for customer application use. This will never be returned from any portion of the network stack or HAL.
    EmberApplicationError4,
    /// This error is reserved for customer application use. This will never be returned from any portion of the network stack or HAL.
    EmberApplicationError5,
    /// This error is reserved for customer application use. This will never be returned from any portion of the network stack or HAL.
    EmberApplicationError6,
    /// This error is reserved for customer application use. This will never be returned from any portion of the network stack or HAL.
    EmberApplicationError7,
    /// This error is reserved for customer application use. This will never be returned from any portion of the network stack or HAL.
    EmberApplicationError8,
    /// This error is reserved for customer application use. This will never be returned from any portion of the network stack or HAL.
    EmberApplicationError9,
    /// This error is reserved for customer application use. This will never be returned from any portion of the network stack or HAL.
    EmberApplicationError10,
    /// This error is reserved for customer application use. This will never be returned from any portion of the network stack or HAL.
    EmberApplicationError11,
    /// This error is reserved for customer application use. This will never be returned from any portion of the network stack or HAL.
    EmberApplicationError12,
    /// This error is reserved for customer application use. This will never be returned from any portion of the network stack or HAL.
    EmberApplicationError13,
    /// This error is reserved for customer application use. This will never be returned from any portion of the network stack or HAL.
    EmberApplicationError14,
    /// This error is reserved for customer application use. This will never be returned from any portion of the network stack or HAL.
    EmberApplicationError15,
    Unknown(u8),
}

impl EmberStatus {
    /// The byte written for the value.
    pub open spec fn spec_id(self) -> u8 {
        match self {
            EmberStatus::EmberSuccess => 0x00,
            EmberStatus::EmberErrFatal => 0x01,
            EmberStatus::EmberBadArgument => 0x02,
            EmberStatus::EmberEepromMfgStackVersionMismatch => 0x04,
            EmberStatus::EmberEepromMfgVersionMismatch => 0x06,
            EmberStatus::EmberEepromStackVersionMismatch => 0x07,
            EmberStatus::EmberNoBuffers => 0x18,
            EmberStatus::EmberSerialInvalidBaudRate => 0x20,
            EmberStatus::EmberSerialInvalidPort => 0x21,
            EmberStatus::EmberSerialTxOverflow => 0x22,
            EmberStatus::EmberSerialRxOverflow => 0x23,
            EmberStatus::EmberSerialRxFrameError => 0x24,
            EmberStatus::EmberSerialRxParityError => 0x25,
            EmberStatus::EmberSerialRxEmpty => 0x26,
            EmberStatus::EmberSerialRxOverrunError => 0x27,
            EmberStatus::EmberMacTransmitQueueFull => 0x39,
            EmberStatus::EmberMacUnknownHeaderType => 0x3a,
            EmberStatus::EmberMacScanning => 0x3d,
            EmberStatus::EmberMacNoData => 0x31,
            EmberStatus::EmberMacJoinedNetwork => 0x32,
            EmberStatus::EmberMacBadScanDuration => 0x33,
            EmberStatus::EmberMacIncorrectScanType => 0x34,
            EmberStatus::EmberMacInvalidChannelMask => 0x35,
            EmberStatus::EmberMacCommandTransmitFailure => 0x36,
            EmberStatus::EmberMacNoAckReceived => 0x40,
            EmberStatus::EmberMacIndirectTimeout => 0x42,
            EmberStatus::EmberSimEepromErasePageGreen => 0x43,
            EmberStatus::EmberSimEepromErasePageRed => 0x44,
            EmberStatus::EmberSimEepromFull => 0x45,
            EmberStatus::EmberErrFlashWriteInhibited => 0x46,
            EmberStatus::EmberErrFlashVerifyFailed => 0x47,
            EmberStatus::EmberSimEepromInit1Failed => 0x48,
            EmberStatus::EmberSimEepromInit2Failed => 0x49,
            EmberStatus::EmberSimEepromInit3Failed => 0x4a,
            EmberStatus::EmberErrFlashProgFail => 0x4b,
            EmberStatus::EmberErrFlashEraseFail => 0x4c,
            EmberStatus::EmberErrBootloaderTrapTableBad => 0x58,
            EmberStatus::EmberErrBootloaderTrapUnknown => 0x59,
            EmberStatus::EmberErrBootloaderNoImage => 0x5a,
            EmberStatus::EmberDeliveryFailed => 0x66,
            EmberStatus::EmberBindingIndexOutOfRange => 0x69,
            EmberStatus::EmberAddressTableIndexOutOfRange => 0x6a,
            EmberStatus::EmberInvalidBindingIndex => 0x6c,
            EmberStatus::EmberInvalidCall => 0x70,
            EmberStatus::EmberCostNotKnown => 0x71,
            EmberStatus::EmberMaxMessageLimitReached => 0x72,
            EmberStatus::EmberMessageTooLong => 0x74,
            EmberStatus::EmberBindingIsActive => 0x75,
            EmberStatus::EmberAddressTableEntryIsActive => 0x76,
            EmberStatus::EmberAdcConversionDone => 0x80,
            EmberStatus::EmberAdcConversionBusy => 0x81,
            EmberStatus::EmberAdcConversionDeferred => 0x82,
            EmberStatus::EmberAdcNoConversionPending => 0x84,
            EmberStatus::EmberSleepInterrupted => 0x85,
            EmberStatus::EmberPhyTxUnderflow => 0x88,
            EmberStatus::EmberPhyTxIncomplete => 0x89,
            EmberStatus::EmberPhyInvalidChannel => 0x8a,
            EmberStatus::EmberPhyInvalidPower => 0x8b,
            EmberStatus::EmberPhyTxBusy => 0x8c,
            EmberStatus::EmberPhyTxCcaFail => 0x8d,
            EmberStatus::EmberPhyOscillatorCheckFailed => 0x8e,
            EmberStatus::EmberPhyAckReceived => 0x8f,
            EmberStatus::EmberNetworkUp => 0x90,
            EmberStatus::EmberNetworkDown => 0x91,
            EmberStatus::EmberJoinFailed => 0x94,
            EmberStatus::EmberMoveFailed => 0x96,
            EmberStatus::EmberCannotJoinAsRouter => 0x98,
            EmberStatus::EmberNodeIdChanged => 0x99,
            EmberStatus::EmberPanIdChanged => 0x9a,
            EmberStatus::EmberNetworkOpened => 0x9c,
            EmberStatus::EmberNetworkClosed => 0x9d,
            EmberStatus::EmberNoBeacons => 0xab,
            EmberStatus::EmberReceivedKeyInTheClear => 0xac,
            EmberStatus::EmberNoNetworkKeyReceived => 0xad,
            EmberStatus::EmberNoLinkKeyReceived => 0xae,
            EmberStatus::EmberPreconfiguredKeyRequired => 0xaf,
            EmberStatus::EmberNotJoined => 0x93,
            EmberStatus::EmberInvalidSecurityLevel => 0x95,
            EmberStatus::EmberNetworkBusy => 0xa1,
            EmberStatus::EmberInvalidEndpoint => 0xa3,
            EmberStatus::EmberBindingHasChanged => 0xa4,
            EmberStatus::EmberInsufficientRandomData => 0xa5,
            EmberStatus::EmberApsEncryptionError => 0xa6,
            EmberStatus::EmberSecurityStateNotSet => 0xa8,
            EmberStatus::EmberKeyTableInvalidAddress => 0xb3,
            EmberStatus::EmberSecurityConfigurationInvalid => 0xb7,
            EmberStatus::EmberTooSoonForSwitchKey => 0xb8,
            EmberStatus::EmberKeyNotAuthorized => 0xbb,
            EmberStatus::EmberSecurityDataInvalid => 0xbd,
            EmberStatus::EmberSourceRouteFailure => 0xa9,
            EmberStatus::EmberManyToOneRouteFailure => 0xaa,
            EmberStatus::EmberStackAndHardwareMismatch => 0xb0,
            EmberStatus::EmberIndexOutOfRange => 0xb1,
            EmberStatus::EmberTableFull => 0xb4,
            EmberStatus::EmberTableEntryErased => 0xb6,
            EmberStatus::EmberLibraryNotPresent => 0xb5,
            EmberStatus::EmberOperationInProgress => 0xba,
            EmberStatus::EmberApplicationError0 => 0xf0,
            EmberStatus::EmberApplicationError1 => 0xf1,
            EmberStatus::EmberApplicationError2 => 0xf2,
            EmberStatus::EmberApplicationError3 => 0xf3,
            EmberStatus::EmberApplicationError4 => 0xf4,
            EmberStatus::EmberApplicationError5 => 0xf5,
            EmberStatus::EmberApplicationError6 => 0xf6,
            EmberStatus::EmberApplicationError7 => 0xf7,
            EmberStatus::EmberApplicationError8 => 0xf8,
            EmberStatus::EmberApplicationError9 => 0xf9,
            EmberStatus::EmberApplicationError10 => 0xfa,
            EmberStatus::EmberApplicationError11 => 0xfb,
            EmberStatus::EmberApplicationError12 => 0xfc,
            EmberStatus::EmberApplicationError13 => 0xfd,
            EmberStatus::EmberApplicationError14 => 0xfe,
            EmberStatus::EmberApplicationError15 => 0xff,
            EmberStatus::Unknown(x) => x,
        }
    }

    /// The value a byte is read as, if any.
    pub open spec fn spec_of(x: u8) -> Option<Self> {
        match x {
            0x00 => Some(EmberStatus::EmberSuccess),
            0x01 => Some(EmberStatus::EmberErrFatal),
            0x02 => Some(EmberStatus::EmberBadArgument),
            0x04 => Some(EmberStatus::EmberEepromMfgStackVersionMismatch),
            0x06 => Some(EmberStatus::EmberEepromMfgVersionMismatch),
            0x07 => Some(EmberStatus::EmberEepromStackVersionMismatch),
            0x18 => Some(EmberStatus::EmberNoBuffers),
            0x20 => Some(EmberStatus::EmberSerialInvalidBaudRate),
            0x21 => Some(EmberStatus::EmberSerialInvalidPort),
            0x22 => Some(EmberStatus::EmberSerialTxOverflow),
            0x23 => Some(EmberStatus::EmberSerialRxOverflow),
            0x24 => Some(EmberStatus::EmberSerialRxFrameError),
            0x25 => Some(EmberStatus::EmberSerialRxParityError),
            0x26 => Some(EmberStatus::EmberSerialRxEmpty),
            0x27 => Some(EmberStatus::EmberSerialRxOverrunError),
            0x39 => Some(EmberStatus::EmberMacTransmitQueueFull),
            0x3a => Some(EmberStatus::EmberMacUnknownHeaderType),
            0x3d => Some(EmberStatus::EmberMacScanning),
            0x31 => Some(EmberStatus::EmberMacNoData),
            0x32 => Some(EmberStatus::EmberMacJoinedNetwork),
            0x33 => Some(EmberStatus::EmberMacBadScanDuration),
            0x34 => Some(EmberStatus::EmberMacIncorrectScanType),
            0x35 => Some(EmberStatus::EmberMacInvalidChannelMask),
            0x36 => Some(EmberStatus::EmberMacCommandTransmitFailure),
            0x40 => Some(EmberStatus::EmberMacNoAckReceived),
            0x42 => Some(EmberStatus::EmberMacIndirectTimeout),
            0x43 => Some(EmberStatus::EmberSimEepromErasePageGreen),
            0x44 => Some(EmberStatus::EmberSimEepromErasePageRed),
            0x45 => Some(EmberStatus::EmberSimEepromFull),
            0x46 => Some(EmberStatus::EmberErrFlashWriteInhibited),
            0x47 => Some(EmberStatus::EmberErrFlashVerifyFailed),
            0x48 => Some(EmberStatus::EmberSimEepromInit1Failed),
            0x49 => Some(EmberStatus::EmberSimEepromInit2Failed),
            0x4a => Some(EmberStatus::EmberSimEepromInit3Failed),
            0x4b => Some(EmberStatus::EmberErrFlashProgFail),
            0x4c => Some(EmberStatus::EmberErrFlashEraseFail),
            0x58 => Some(EmberStatus::EmberErrBootloaderTrapTableBad),
            0x59 => Some(EmberStatus::EmberErrBootloaderTrapUnknown),
            0x5a => Some(EmberStatus::EmberErrBootloaderNoImage),
            0x66 => Some(EmberStatus::EmberDeliveryFailed),
            0x69 => Some(EmberStatus::EmberBindingIndexOutOfRange),
            0x6a => Some(EmberStatus::EmberAddressTableIndexOutOfRange),
            0x6c => Some(EmberStatus::EmberInvalidBindingIndex),
            0x70 => Some(EmberStatus::EmberInvalidCall),
            0x71 => Some(EmberStatus::EmberCostNotKnown),
            0x72 => Some(EmberStatus::EmberMaxMessageLimitReached),
            0x74 => Some(EmberStatus::EmberMessageTooLong),
            0x75 => Some(EmberStatus::EmberBindingIsActive),
            0x76 => Some(EmberStatus::EmberAddressTableEntryIsActive),
            0x80 => Some(EmberStatus::EmberAdcConversionDone),
            0x81 => Some(EmberStatus::EmberAdcConversionBusy),
            0x82 => Some(EmberStatus::EmberAdcConversionDeferred),
            0x84 => Some(EmberStatus::EmberAdcNoConversionPending),
            0x85 => Some(EmberStatus::EmberSleepInterrupted),
            0x88 => Some(EmberStatus::EmberPhyTxUnderflow),
            0x89 => Some(EmberStatus::EmberPhyTxIncomplete),
            0x8a => Some(EmberStatus::EmberPhyInvalidChannel),
            0x8b => Some(EmberStatus::EmberPhyInvalidPower),
            0x8c => Some(EmberStatus::EmberPhyTxBusy),
            0x8d => Some(EmberStatus::EmberPhyTxCcaFail),
            0x8e => Some(EmberStatus::EmberPhyOscillatorCheckFailed),
            0x8f => Some(EmberStatus::EmberPhyAckReceived),
            0x90 => Some(EmberStatus::EmberNetworkUp),
            0x91 => Some(EmberStatus::EmberNetworkDown),
            0x94 => Some(EmberStatus::EmberJoinFailed),
            0x96 => Some(EmberStatus::EmberMoveFailed),
            0x98 => Some(EmberStatus::EmberCannotJoinAsRouter),
            0x99 => Some(EmberStatus::EmberNodeIdChanged),
            0x9a => Some(EmberStatus::EmberPanIdChanged),
            0x9c => Some(EmberStatus::EmberNetworkOpened),
            0x9d => Some(EmberStatus::EmberNetworkClosed),
            0xab => Some(EmberStatus::EmberNoBeacons),
            0xac => Some(EmberStatus::EmberReceivedKeyInTheClear),
            0xad => Some(EmberStatus::EmberNoNetworkKeyReceived),
            0xae => Some(EmberStatus::EmberNoLinkKeyReceived),
            0xaf => Some(EmberStatus::EmberPreconfiguredKeyRequired),
            0x93 => Some(EmberStatus::EmberNotJoined),
            0x95 => Some(EmberStatus::EmberInvalidSecurityLevel),
            0xa1 => Some(EmberStatus::EmberNetworkBusy),
            0xa3 => Some(EmberStatus::EmberInvalidEndpoint),
            0xa4 => Some(EmberStatus::EmberBindingHasChanged),
            0xa5 => Some(EmberStatus::EmberInsufficientRandomData),
            0xa6 => Some(EmberStatus::EmberApsEncryptionError),
            0xa8 => Some(EmberStatus::EmberSecurityStateNotSet),
            0xb3 => Some(EmberStatus::EmberKeyTableInvalidAddress),
            0xb7 => Some(EmberStatus::EmberSecurityConfigurationInvalid),
            0xb8 => Some(EmberStatus::EmberTooSoonForSwitchKey),
            0xbb => Some(EmberStatus::EmberKeyNotAuthorized),
            0xbd => Some(EmberStatus::EmberSecurityDataInvalid),
            0xa9 => Some(EmberStatus::EmberSourceRouteFailure),
            0xaa => Some(EmberStatus::EmberManyToOneRouteFailure),
            0xb0 => Some(EmberStatus::EmberStackAndHardwareMismatch),
            0xb1 => Some(EmberStatus::EmberIndexOutOfRange),
            0xb4 => Some(EmberStatus::EmberTableFull),
            0xb6 => Some(EmberStatus::EmberTableEntryErased),
            0xb5 => Some(EmberStatus::EmberLibraryNotPresent),
            0xba => Some(EmberStatus::EmberOperationInProgress),
            0xf0 => Some(EmberStatus::EmberApplicationError0),
            0xf1 => Some(EmberStatus::EmberApplicationError1),
            0xf2 => Some(EmberStatus::EmberApplicationError2),
            0xf3 => Some(EmberStatus::EmberApplicationError3),
            0xf4 => Some(EmberStatus::EmberApplicationError4),
            0xf5 => Some(EmberStatus::EmberApplicationError5),
            0xf6 => Some(EmberStatus::EmberApplicationError6),
            0xf7 => Some(EmberStatus::EmberApplicationError7),
            0xf8 => Some(EmberStatus::EmberApplicationError8),
            0xf9 => Some(EmberStatus::EmberApplicationError9),
            0xfa => Some(EmberStatus::EmberApplicationError10),
            0xfb => Some(EmberStatus::EmberApplicationError11),
            0xfc => Some(EmberStatus::EmberApplicationError12),
            0xfd => Some(EmberStatus::EmberApplicationError13),
            0xfe => Some(EmberStatus::EmberApplicationError14),
            0xff => Some(EmberStatus::EmberApplicationError15),
            _ => Some(EmberStatus::Unknown(x)),
        }
    }

    /// The byte written for the value, as `spec_id` says.
    pub fn id(&self) -> (r: u8)
        ensures
            r == self.spec_id(),
    {
        match self {
            EmberStatus::EmberSuccess => 0x00,
            EmberStatus::EmberErrFatal => 0x01,
            EmberStatus::EmberBadArgument => 0x02,
            EmberStatus::EmberEepromMfgStackVersionMismatch => 0x04,
            EmberStatus::EmberEepromMfgVersionMismatch => 0x06,
            EmberStatus::EmberEepromStackVersionMismatch => 0x07,
            EmberStatus::EmberNoBuffers => 0x18,
            EmberStatus::EmberSerialInvalidBaudRate => 0x20,
            EmberStatus::EmberSerialInvalidPort => 0x21,
            EmberStatus::EmberSerialTxOverflow => 0x22,
            EmberStatus::EmberSerialRxOverflow => 0x23,
            EmberStatus::EmberSerialRxFrameError => 0x24,
            EmberStatus::EmberSerialRxParityError => 0x25,
            EmberStatus::EmberSerialRxEmpty => 0x26,
            EmberStatus::EmberSerialRxOverrunError => 0x27,
            EmberStatus::EmberMacTransmitQueueFull => 0x39,
            EmberStatus::EmberMacUnknownHeaderType => 0x3a,
            EmberStatus::EmberMacScanning => 0x3d,
            EmberStatus::EmberMacNoData => 0x31,
            EmberStatus::EmberMacJoinedNetwork => 0x32,
            EmberStatus::EmberMacBadScanDuration => 0x33,
            EmberStatus::EmberMacIncorrectScanType => 0x34,
            EmberStatus::EmberMacInvalidChannelMask => 0x35,
            EmberStatus::EmberMacCommandTransmitFailure => 0x36,
            EmberStatus::EmberMacNoAckReceived => 0x40,
            EmberStatus::EmberMacIndirectTimeout => 0x42,
            EmberStatus::EmberSimEepromErasePageGreen => 0x43,
            EmberStatus::EmberSimEepromErasePageRed => 0x44,
            EmberStatus::EmberSimEepromFull => 0x45,
            EmberStatus::EmberErrFlashWriteInhibited => 0x46,
            EmberStatus::EmberErrFlashVerifyFailed => 0x47,
            EmberStatus::EmberSimEepromInit1Failed => 0x48,
            EmberStatus::EmberSimEepromInit2Failed => 0x49,
            EmberStatus::EmberSimEepromInit3Failed => 0x4a,
            EmberStatus::EmberErrFlashProgFail => 0x4b,
            EmberStatus::EmberErrFlashEraseFail => 0x4c,
            EmberStatus::EmberErrBootloaderTrapTableBad => 0x58,
            EmberStatus::EmberErrBootloaderTrapUnknown => 0x59,
            EmberStatus::EmberErrBootloaderNoImage => 0x5a,
            EmberStatus::EmberDeliveryFailed => 0x66,
            EmberStatus::EmberBindingIndexOutOfRange => 0x69,
            EmberStatus::EmberAddressTableIndexOutOfRange => 0x6a,
            EmberStatus::EmberInvalidBindingIndex => 0x6c,
            EmberStatus::EmberInvalidCall => 0x70,
            EmberStatus::EmberCostNotKnown => 0x71,
            EmberStatus::EmberMaxMessageLimitReached => 0x72,
            EmberStatus::EmberMessageTooLong => 0x74,
            EmberStatus::EmberBindingIsActive => 0x75,
            EmberStatus::EmberAddressTableEntryIsActive => 0x76,
            EmberStatus::EmberAdcConversionDone => 0x80,
            EmberStatus::EmberAdcConversionBusy => 0x81,
            EmberStatus::EmberAdcConversionDeferred => 0x82,
            EmberStatus::EmberAdcNoConversionPending => 0x84,
            EmberStatus::EmberSleepInterrupted => 0x85,
            EmberStatus::EmberPhyTxUnderflow => 0x88,
            EmberStatus::EmberPhyTxIncomplete => 0x89,
            EmberStatus::EmberPhyInvalidChannel => 0x8a,
            EmberStatus::EmberPhyInvalidPower => 0x8b,
            EmberStatus::EmberPhyTxBusy => 0x8c,
            EmberStatus::EmberPhyTxCcaFail => 0x8d,
            EmberStatus::EmberPhyOscillatorCheckFailed => 0x8e,
            EmberStatus::EmberPhyAckReceived => 0x8f,
            EmberStatus::EmberNetworkUp => 0x90,
            EmberStatus::EmberNetworkDown => 0x91,
            EmberStatus::EmberJoinFailed => 0x94,
            EmberStatus::EmberMoveFailed => 0x96,
            EmberStatus::EmberCannotJoinAsRouter => 0x98,
            EmberStatus::EmberNodeIdChanged => 0x99,
            EmberStatus::EmberPanIdChanged => 0x9a,
            EmberStatus::EmberNetworkOpened => 0x9c,
            EmberStatus::EmberNetworkClosed => 0x9d,
            EmberStatus::EmberNoBeacons => 0xab,
            EmberStatus::EmberReceivedKeyInTheClear => 0xac,
            EmberStatus::EmberNoNetworkKeyReceived => 0xad,
            EmberStatus::EmberNoLinkKeyReceived => 0xae,
            EmberStatus::EmberPreconfiguredKeyRequired => 0xaf,
            EmberStatus::EmberNotJoined => 0x93,
            EmberStatus::EmberInvalidSecurityLevel => 0x95,
            EmberStatus::EmberNetworkBusy => 0xa1,
            EmberStatus::EmberInvalidEndpoint => 0xa3,
            EmberStatus::EmberBindingHasChanged => 0xa4,
            EmberStatus::EmberInsufficientRandomData => 0xa5,
            EmberStatus::EmberApsEncryptionError => 0xa6,
            EmberStatus::EmberSecurityStateNotSet => 0xa8,
            EmberStatus::EmberKeyTableInvalidAddress => 0xb3,
            EmberStatus::EmberSecurityConfigurationInvalid => 0xb7,
            EmberStatus::EmberTooSoonForSwitchKey => 0xb8,
            EmberStatus::EmberKeyNotAuthorized => 0xbb,
            EmberStatus::EmberSecurityDataInvalid => 0xbd,
            EmberStatus::EmberSourceRouteFailure => 0xa9,
            EmberStatus::EmberManyToOneRouteFailure => 0xaa,
            EmberStatus::EmberStackAndHardwareMismatch => 0xb0,
            EmberStatus::EmberIndexOutOfRange => 0xb1,
            EmberStatus::EmberTableFull => 0xb4,
            EmberStatus::EmberTableEntryErased => 0xb6,
            EmberStatus::EmberLibraryNotPresent => 0xb5,
            EmberStatus::EmberOperationInProgress => 0xba,
            EmberStatus::EmberApplicationError0 => 0xf0,
            EmberStatus::EmberApplicationError1 => 0xf1,
            EmberStatus::EmberApplicationError2 => 0xf2,
            EmberStatus::EmberApplicationError3 => 0xf3,
            EmberStatus::EmberApplicationError4 => 0xf4,
            EmberStatus::EmberApplicationError5 => 0xf5,
            EmberStatus::EmberApplicationError6 => 0xf6,
            EmberStatus::EmberApplicationError7 => 0xf7,
            EmberStatus::EmberApplicationError8 => 0xf8,
            EmberStatus::EmberApplicationError9 => 0xf9,
            EmberStatus::EmberApplicationError10 => 0xfa,
            EmberStatus::EmberApplicationError11 => 0xfb,
            EmberStatus::EmberApplicationError12 => 0xfc,
            EmberStatus::EmberApplicationError13 => 0xfd,
            EmberStatus::EmberApplicationError14 => 0xfe,
            EmberStatus::EmberApplicationError15 => 0xff,
            EmberStatus::Unknown(x) => *x,
        }
    }

    /// The value a byte is read as, as `spec_of` says.
    pub fn of(x: u8) -> (r: Option<Self>)
        ensures
            r == Self::spec_of(x),
    {
        match x {
            0x00 => Some(EmberStatus::EmberSuccess),
            0x01 => Some(EmberStatus::EmberErrFatal),
            0x02 => Some(EmberStatus::EmberBadArgument),
            0x04 => Some(EmberStatus::EmberEepromMfgStackVersionMismatch),
            0x06 => Some(EmberStatus::EmberEepromMfgVersionMismatch),
            0x07 => Some(EmberStatus::EmberEepromStackVersionMismatch),
            0x18 => Some(EmberStatus::EmberNoBuffers),
            0x20 => Some(EmberStatus::EmberSerialInvalidBaudRate),
            0x21 => Some(EmberStatus::EmberSerialInvalidPort),
            0x22 => Some(EmberStatus::EmberSerialTxOverflow),
            0x23 => Some(EmberStatus::EmberSerialRxOverflow),
            0x24 => Some(EmberStatus::EmberSerialRxFrameError),
            0x25 => Some(EmberStatus::EmberSerialRxParityError),
            0x26 => Some(EmberStatus::EmberSerialRxEmpty),
            0x27 => Some(EmberStatus::EmberSerialRxOverrunError),
            0x39 => Some(EmberStatus::EmberMacTransmitQueueFull),
            0x3a => Some(EmberStatus::EmberMacUnknownHeaderType),
            0x3d => Some(EmberStatus::EmberMacScanning),
            0x31 => Some(EmberStatus::EmberMacNoData),
            0x32 => Some(EmberStatus::EmberMacJoinedNetwork),
            0x33 => Some(EmberStatus::EmberMacBadScanDuration),
            0x34 => Some(EmberStatus::EmberMacIncorrectScanType),
            0x35 => Some(EmberStatus::EmberMacInvalidChannelMask),
            0x36 => Some(EmberStatus::EmberMacCommandTransmitFailure),
            0x40 => Some(EmberStatus::EmberMacNoAckReceived),
            0x42 => Some(EmberStatus::EmberMacIndirectTimeout),
            0x43 => Some(EmberStatus::EmberSimEepromErasePageGreen),
            0x44 => Some(EmberStatus::EmberSimEepromErasePageRed),
            0x45 => Some(EmberStatus::EmberSimEepromFull),
            0x46 => Some(EmberStatus::EmberErrFlashWriteInhibited),
            0x47 => Some(EmberStatus::EmberErrFlashVerifyFailed),
            0x48 => Some(EmberStatus::EmberSimEepromInit1Failed),
            0x49 => Some(EmberStatus::EmberSimEepromInit2Failed),
            0x4a => Some(EmberStatus::EmberSimEepromInit3Failed),
            0x4b => Some(EmberStatus::EmberErrFlashProgFail),
            0x4c => Some(EmberStatus::EmberErrFlashEraseFail),
            0x58 => Some(EmberStatus::EmberErrBootloaderTrapTableBad),
            0x59 => Some(EmberStatus::EmberErrBootloaderTrapUnknown),
            0x5a => Some(EmberStatus::EmberErrBootloaderNoImage),
            0x66 => Some(EmberStatus::EmberDeliveryFailed),
            0x69 => Some(EmberStatus::EmberBindingIndexOutOfRange),
            0x6a => Some(EmberStatus::EmberAddressTableIndexOutOfRange),
            0x6c => Some(EmberStatus::EmberInvalidBindingIndex),
            0x70 => Some(EmberStatus::EmberInvalidCall),
            0x71 => Some(EmberStatus::EmberCostNotKnown),
            0x72 => Some(EmberStatus::EmberMaxMessageLimitReached),
            0x74 => Some(EmberStatus::EmberMessageTooLong),
            0x75 => Some(EmberStatus::EmberBindingIsActive),
            0x76 => Some(EmberStatus::EmberAddressTableEntryIsActive),
            0x80 => Some(EmberStatus::EmberAdcConversionDone),
            0x81 => Some(EmberStatus::EmberAdcConversionBusy),
            0x82 => Some(EmberStatus::EmberAdcConversionDeferred),
            0x84 => Some(EmberStatus::EmberAdcNoConversionPending),
            0x85 => Some(EmberStatus::EmberSleepInterrupted),
            0x88 => Some(EmberStatus::EmberPhyTxUnderflow),
            0x89 => Some(EmberStatus::EmberPhyTxIncomplete),
            0x8a => Some(EmberStatus::EmberPhyInvalidChannel),
            0x8b => Some(EmberStatus::EmberPhyInvalidPower),
            0x8c => Some(EmberStatus::EmberPhyTxBusy),
            0x8d => Some(EmberStatus::EmberPhyTxCcaFail),
            0x8e => Some(EmberStatus::EmberPhyOscillatorCheckFailed),
            0x8f => Some(EmberStatus::EmberPhyAckReceived),
            0x90 => Some(EmberStatus::EmberNetworkUp),
            0x91 => Some(EmberStatus::EmberNetworkDown),
            0x94 => Some(EmberStatus::EmberJoinFailed),
            0x96 => Some(EmberStatus::EmberMoveFailed),
            0x98 => Some(EmberStatus::EmberCannotJoinAsRouter),
            0x99 => Some(EmberStatus::EmberNodeIdChanged),
            0x9a => Some(EmberStatus::EmberPanIdChanged),
            0x9c => Some(EmberStatus::EmberNetworkOpened),
            0x9d => Some(EmberStatus::EmberNetworkClosed),
            0xab => Some(EmberStatus::EmberNoBeacons),
            0xac => Some(EmberStatus::EmberReceivedKeyInTheClear),
            0xad => Some(EmberStatus::EmberNoNetworkKeyReceived),
            0xae => Some(EmberStatus::EmberNoLinkKeyReceived),
            0xaf => Some(EmberStatus::EmberPreconfiguredKeyRequired),
            0x93 => Some(EmberStatus::EmberNotJoined),
            0x95 => Some(EmberStatus::EmberInvalidSecurityLevel),
            0xa1 => Some(EmberStatus::EmberNetworkBusy),
            0xa3 => Some(EmberStatus::EmberInvalidEndpoint),
            0xa4 => Some(EmberStatus::EmberBindingHasChanged),
            0xa5 => Some(EmberStatus::EmberInsufficientRandomData),
            0xa6 => Some(EmberStatus::EmberApsEncryptionError),
            0xa8 => Some(EmberStatus::EmberSecurityStateNotSet),
            0xb3 => Some(EmberStatus::EmberKeyTableInvalidAddress),
            0xb7 => Some(EmberStatus::EmberSecurityConfigurationInvalid),
            0xb8 => Some(EmberStatus::EmberTooSoonForSwitchKey),
            0xbb => Some(EmberStatus::EmberKeyNotAuthorized),
            0xbd => Some(EmberStatus::EmberSecurityDataInvalid),
            0xa9 => Some(EmberStatus::EmberSourceRouteFailure),
            0xaa => Some(EmberStatus::EmberManyToOneRouteFailure),
            0xb0 => Some(EmberStatus::EmberStackAndHardwareMismatch),
            0xb1 => Some(EmberStatus::EmberIndexOutOfRange),
            0xb4 => Some(EmberStatus::EmberTableFull),
            0xb6 => Some(EmberStatus::EmberTableEntryErased),
            0xb5 => Some(EmberStatus::EmberLibraryNotPresent),
            0xba => Some(EmberStatus::EmberOperationInProgress),
            0xf0 => Some(EmberStatus::EmberApplicationError0),
            0xf1 => Some(EmberStatus::EmberApplicationError1),
            0xf2 => Some(EmberStatus::EmberApplicationError2),
            0xf3 => Some(EmberStatus::EmberApplicationError3),
            0xf4 => Some(EmberStatus::EmberApplicationError4),
            0xf5 => Some(EmberStatus::EmberApplicationError5),
            0xf6 => Some(EmberStatus::EmberApplicationError6),
            0xf7 => Some(EmberStatus::EmberApplicationError7),
            0xf8 => Some(EmberStatus::EmberApplicationError8),
            0xf9 => Some(EmberStatus::EmberApplicationError9),
            0xfa => Some(EmberStatus::EmberApplicationError10),
            0xfb => Some(EmberStatus::EmberApplicationError11),
            0xfc => Some(EmberStatus::EmberApplicationError12),
            0xfd => Some(EmberStatus::EmberApplicationError13),
            0xfe => Some(EmberStatus::EmberApplicationError14),
            0xff => Some(EmberStatus::EmberApplicationError15),
            _ => Some(EmberStatus::Unknown(x)),
        }
    }
}

/// The configuration values of the network co-processor.
#[derive(Debug, Clone, Copy, PartialEq, Eq, Structural)]
pub enum EzspConfigId {
    /// The NCP no longer supports configuration of packet buffer count at runtime using this parameter. Packet buffers must be configured using the EMBER_PACKET_BUFFER_COUNT macro when building the NCP project.
    EzspConfigPacketBufferCount,
    /// The maximum number of router neighbors the stack can keep track of. A neighbor is a node within radio range.
    EzspConfigNeighborTableSize,
    /// The maximum number of APS retried messages the stack can be transmitting at any time.
    EzspConfigApsUnicastMessageCount,
    /// The maximum number of non-volatile bindings supported by the stack.
    EzspConfigBindingTableSize,
    /// The maximum number of EUI64 to network address associations that the stack can maintain for the application. (Note, the total number of such address associations maintained by the NCP is the sum of the value of this setting and the value of ::EZSP_CONFIG_TRUST_CENTER_ADDRESS_CACH E_SIZE.).
    EzspConfigAddressTableSize,
    /// The maximum number of multicast groups that the device may be a member of.
    EzspConfigMulticastTableSize,
    /// The maximum number of destinations to which a node can route messages. This includes both messages originating at this node and those relayed for others.
    EzspConfigRouteTableSize,
    /// The number of simultaneous route discoveries that a node will support.
    EzspConfigDiscoveryTableSize,
    /// Specifies the stack profile.
    EzspConfigStackProfile,
    /// The security level used for security at the MAC and network layers. The supported values are 0 (no security) and 5 (payload is encrypted and a four-byte MIC is used for authentication).
    EzspConfigSecurityLevel,
    /// The maximum number of hops for a message.
    EzspConfigMaxHops,
    /// The maximum number of end device children that a router will support.
    EzspConfigMaxEndDeviceChildren,
    /// The maximum amount of time that the MAC will hold a message for indirect transmission to a child.
    EzspConfigIndirectTransmissionTimeout,
    /// The maximum amount of time that an end device child can wait between polls. If no poll is heard within this timeout, then the parent removes the end device from its tables. Value range 0-14. The timeout corresponding to a value of zero is 10 seconds. The timeout corresponding to a nonzero value N is 2^N minutes, ranging from 2^1 = 2 minutes to 2^14 = 16384 minutes.
    EzspConfigEndDevicePollTimeout,
    /// Enables boost power mode and/or the alternate transmitter output.
    EzspConfigTxPowerMode,
    /// 0: Allow this node to relay messages. 1: Prevent this node from relaying messages.
    EzspConfigDisableRelay,
    /// The maximum number of EUI64 to network address associations that the Trust Center can maintain. These address cache entries are reserved for and reused by the Trust Center when processing device join/rejoin authentications. This cache size limits the number of overlapping joins the Trust Center can process within a narrow time window (e.g. two seconds), and thus should be set to the maximum number of near simultaneous joins the Trust Center is expected to accommodate. (Note, the total number of such address associations maintained by the NCP is the sum of the value of this setting and the value of ::EZSP_CONFIG_ADDRESS_TABLE_SIZE.)
    EzspConfigTrustCenterAddressCacheSize,
    /// The size of the source route table.
    EzspConfigSourceRouteTableSize,
    /// The number of blocks of a fragmented message that can be sent in a single window.
    EzspConfigFragmentWindowSize,
    /// The time the stack will wait (in milliseconds) between sending blocks of a fragmented message.
    EzspConfigFragmentDelayMs,
    /// The size of the Key Table used for storing individual link keys (if the device is a Trust Center) or Application Link Keys (if the device is a normal node).
    EzspConfigKeyTableSize,
    /// The APS ACK timeout value. The stack waits this amount of time between resends of APS retried messages.
    EzspConfigApsAckTimeout,
    /// The duration of a beacon jitter, in the units used by the 15.4 scan parameter (((1 << duration) + 1) * 15ms), when responding to a beacon request.
    EzspConfigBeaconJitterDuration,
    /// The number of PAN id conflict reports that must be received by the network manager within one minute to trigger a PAN id change.
    EzspConfigPanIdConflictReportThreshold,
    /// The timeout value in minutes for how long the Trust Center or a normal node waits for the ZigBee Request Key to complete. On the Trust Center this controls whether or not the device buffers the request, waiting for a matching pair of ZigBee Request Key. If the value is non-zero, the Trust Center buffers and waits for that amount of time. If the value is zero, the Trust Center does not buffer the request and immediately responds to the request. Zero is the most compliant behavior.
    EzspConfigRequestKeyTimeout,
    /// This value indicates the size of the runtime modifiable certificate table. Normally certificates are stored in MFG tokens but this table can be used to field upgrade devices with new Smart Energy certificates. This value cannot be set, it can only be queried.
    EzspConfigCertificateTableSize,
    /// This is a bitmask that controls which incoming ZDO request messages are passed to the application. The bits are defined in the EmberZdoConfigurationFlags enumeration. To see if the application is required to send a ZDO response in reply to an incoming message, the application must check the APS options bitfield within the incomingMessageHandler callback to see if the EMBER_APS_OPTION_ZDO_RESPONSE_REQUIRE D flag is set.
    EzspConfigApplicationZdoFlags,
    /// The maximum number of broadcasts during a single broadcast timeout period.
    EzspConfigBroadcastTableSize,
    /// The size of the MAC filter list table.
    EzspConfigMacFilterTableSize,
    /// The number of supported networks.
    EzspConfigSupportedNetworks,
    /// Whether multicasts are sent to the RxOnWhenIdle=true address (0xFFFD) or the sleepy broadcast address (0xFFFF). The RxOnWhenIdle=true address is the ZigBee compliant destination for multicasts.
    EzspConfigSendMulticastsToSleepyAddress,
    /// ZLL group address initial configuration.
    EzspConfigZllGroupAddresses,
    /// ZLL rssi threshold initial configuration.
    EzspConfigZllRssiThreshold,
    /// Toggles the MTORR flow control in the stack.
    EzspConfigMtorrFlowControl,
    /// Setting the retry queue size. Applies to all queues. Default value in the sample applications is 16.
    EzspConfigRetryQueueSize,
    /// Setting the new broadcast entry threshold. The number(BROADCAST_TABLE_SIZE - NEW_BROADCAST_ENTRY_THRESHOLD) of broadcast table entries are reserved for relaying the broadcast messages originated on other devices. The local device will fail to originate a broadcast message after this threshold is reached. Setting this value to BROADCAST_TABLE_SIZE and greater will effectively kill this limitation.
    EzspConfigNewBroadcastEntryThreshold,
    /// The length of time, in seconds, that a trust center will store a transient link key that a device can use to join its network. A transient key is added with a call to emberAddTransientLinkKey. After the transient key is added, it will be removed once this amount of time has passed. A joining device will not be able to use that key to join until it is added again on the trust center. The default value is 300 seconds, i.e., 5 minutes.
    EzspConfigTransientKeyTimeoutS,
    /// The number of passive acknowledgements to record from neighbors before we stop re-transmitting broadcasts
    EzspConfigBroadcastMinAcksNeeded,
    /// The length of time, in seconds, that a trust center will allow a Trust Center (insecure) rejoin for a device that is using the well-known link key. This timeout takes effect once rejoins using the well-known key has been allowed. This command updates the sli_zigbee_allow_tc_rejoins_using_well_known_key_timeout_sec value.
    EzspConfigTcRejoinsUsingWellKnownKeyTimeoutS,
    /// Valid range of a CTUNE value is 0x0000-0x01FF. Higher order bits (0xFE00) of the 16-bit value are ignored.
    EzspConfigCtuneValue,
    /// To configure non trust center node to assume a concentrator type of the trust center it join to, until it receive many-to-one route request from the trust center. For the trust center node, concentrator type is configured from the concentrator plugin. The stack by default assumes trust center be a low RAM concentrator that make other devices send route record to the trust center even without receiving a many-to-one route request. The default concentrator type can be changed by setting appropriate EmberAssumeTrustCenterConcentratorType config value.
    EzspConfigAssumeTcConcentratorType,
    /// This is green power proxy table size. This value is read-only and cannot be set at runtime
    EzspConfigGpProxyTableSize,
    /// This is green power sink table size. This value is read-only and cannot be set at runtime
    EzspConfigGpSinkTableSize,
}

impl EzspConfigId {
    /// The byte written for the value.
    pub open spec fn spec_id(self) -> u8 {
        match self {
            EzspConfigId::EzspConfigPacketBufferCount => 0x01,
            EzspConfigId::EzspConfigNeighborTableSize => 0x02,
            EzspConfigId::EzspConfigApsUnicastMessageCount => 0x03,
            EzspConfigId::EzspConfigBindingTableSize => 0x04,
            EzspConfigId::EzspConfigAddressTableSize => 0x05,
            EzspConfigId::EzspConfigMulticastTableSize => 0x06,
            EzspConfigId::EzspConfigRouteTableSize => 0x07,
            EzspConfigId::EzspConfigDiscoveryTableSize => 0x08,
            EzspConfigId::EzspConfigStackProfile => 0x0c,
            EzspConfigId::EzspConfigSecurityLevel => 0x0d,
            EzspConfigId::EzspConfigMaxHops => 0x10,
            EzspConfigId::EzspConfigMaxEndDeviceChildren => 0x11,
            EzspConfigId::EzspConfigIndirectTransmissionTimeout => 0x12,
            EzspConfigId::EzspConfigEndDevicePollTimeout => 0x13,
            EzspConfigId::EzspConfigTxPowerMode => 0x17,
            EzspConfigId::EzspConfigDisableRelay => 0x18,
            EzspConfigId::EzspConfigTrustCenterAddressCacheSize => 0x19,
            EzspConfigId::EzspConfigSourceRouteTableSize => 0x1a,
            EzspConfigId::EzspConfigFragmentWindowSize => 0x1c,
            EzspConfigId::EzspConfigFragmentDelayMs => 0x1d,
            EzspConfigId::EzspConfigKeyTableSize => 0x1e,
            EzspConfigId::EzspConfigApsAckTimeout => 0x1f,
            EzspConfigId::EzspConfigBeaconJitterDuration => 0x20,
            EzspConfigId::EzspConfigPanIdConflictReportThreshold => 0x22,
            EzspConfigId::EzspConfigRequestKeyTimeout => 0x24,
            EzspConfigId::EzspConfigCertificateTableSize => 0x29,
            EzspConfigId::EzspConfigApplicationZdoFlags => 0x2a,
            EzspConfigId::EzspConfigBroadcastTableSize => 0x2b,
            EzspConfigId::EzspConfigMacFilterTableSize => 0x2c,
            EzspConfigId::EzspConfigSupportedNetworks => 0x2d,
            EzspConfigId::EzspConfigSendMulticastsToSleepyAddress => 0x2e,
            EzspConfigId::EzspConfigZllGroupAddresses => 0x2f,
            EzspConfigId::EzspConfigZllRssiThreshold => 0x30,
            EzspConfigId::EzspConfigMtorrFlowControl => 0x33,
            EzspConfigId::EzspConfigRetryQueueSize => 0x34,
            EzspConfigId::EzspConfigNewBroadcastEntryThreshold => 0x35,
            EzspConfigId::EzspConfigTransientKeyTimeoutS => 0x36,
            EzspConfigId::EzspConfigBroadcastMinAcksNeeded => 0x37,
            EzspConfigId::EzspConfigTcRejoinsUsingWellKnownKeyTimeoutS => 0x38,
            EzspConfigId::EzspConfigCtuneValue => 0x39,
            EzspConfigId::EzspConfigAssumeTcConcentratorType => 0x40,
            EzspConfigId::EzspConfigGpProxyTableSize => 0x41,
            EzspConfigId::EzspConfigGpSinkTableSize => 0x42,
        }
    }

    /// The value a byte is read as, if any.
    pub open spec fn spec_of(x: u8) -> Option<Self> {
        match x {
            0x01 => Some(EzspConfigId::EzspConfigPacketBufferCount),
            0x02 => Some(EzspConfigId::EzspConfigNeighborTableSize),
            0x03 => Some(EzspConfigId::EzspConfigApsUnicastMessageCount),
            0x04 => Some(EzspConfigId::EzspConfigBindingTableSize),
            0x05 => Some(EzspConfigId::EzspConfigAddressTableSize),
            0x06 => Some(EzspConfigId::EzspConfigMulticastTableSize),
            0x07 => Some(EzspConfigId::EzspConfigRouteTableSize),
            0x08 => Some(EzspConfigId::EzspConfigDiscoveryTableSize),
            0x0c => Some(EzspConfigId::EzspConfigStackProfile),
            0x0d => Some(EzspConfigId::EzspConfigSecurityLevel),
            0x10 => Some(EzspConfigId::EzspConfigMaxHops),
            0x11 => Some(EzspConfigId::EzspConfigMaxEndDeviceChildren),
            0x12 => Some(EzspConfigId::EzspConfigIndirectTransmissionTimeout),
            0x13 => Some(EzspConfigId::EzspConfigEndDevicePollTimeout),
            0x17 => Some(EzspConfigId::EzspConfigTxPowerMode),
            0x18 => Some(EzspConfigId::EzspConfigDisableRelay),
            0x19 => Some(EzspConfigId::EzspConfigTrustCenterAddressCacheSize),
            0x1a => Some(EzspConfigId::EzspConfigSourceRouteTableSize),
            0x1c => Some(EzspConfigId::EzspConfigFragmentWindowSize),
            0x1d => Some(EzspConfigId::EzspConfigFragmentDelayMs),
            0x1e => Some(EzspConfigId::EzspConfigKeyTableSize),
            0x1f => Some(EzspConfigId::EzspConfigApsAckTimeout),
            0x20 => Some(EzspConfigId::EzspConfigBeaconJitterDuration),
            0x22 => Some(EzspConfigId::EzspConfigPanIdConflictReportThreshold),
            0x24 => Some(EzspConfigId::EzspConfigRequestKeyTimeout),
            0x29 => Some(EzspConfigId::EzspConfigCertificateTableSize),
            0x2a => Some(EzspConfigId::EzspConfigApplicationZdoFlags),
            0x2b => Some(EzspConfigId::EzspConfigBroadcastTableSize),
            0x2c => Some(EzspConfigId::EzspConfigMacFilterTableSize),
            0x2d => Some(EzspConfigId::EzspConfigSupportedNetworks),
            0x2e => Some(EzspConfigId::EzspConfigSendMulticastsToSleepyAddress),
            0x2f => Some(EzspConfigId::EzspConfigZllGroupAddresses),
            0x30 => Some(EzspConfigId::EzspConfigZllRssiThreshold),
            0x33 => Some(EzspConfigId::EzspConfigMtorrFlowControl),
            0x34 => Some(EzspConfigId::EzspConfigRetryQueueSize),
            0x35 => Some(EzspConfigId::EzspConfigNewBroadcastEntryThreshold),
            0x36 => Some(EzspConfigId::EzspConfigTransientKeyTimeoutS),
            0x37 => Some(EzspConfigId::EzspConfigBroadcastMinAcksNeeded),
            0x38 => Some(EzspConfigId::EzspConfigTcRejoinsUsingWellKnownKeyTimeoutS),
            0x39 => Some(EzspConfigId::EzspConfigCtuneValue),
            0x40 => Some(EzspConfigId::EzspConfigAssumeTcConcentratorType),
            0x41 => Some(EzspConfigId::EzspConfigGpProxyTableSize),
            0x42 => Some(EzspConfigId::EzspConfigGpSinkTableSize),
            _ => None,
        }
    }

    /// The byte written for the value, as `spec_id` says.
    pub fn id(&self) -> (r: u8)
        ensures
            r == self.spec_id(),
    {
        match self {
            EzspConfigId::EzspConfigPacketBufferCount => 0x01,
            EzspConfigId::EzspConfigNeighborTableSize => 0x02,
            EzspConfigId::EzspConfigApsUnicastMessageCount => 0x03,
            EzspConfigId::EzspConfigBindingTableSize => 0x04,
            EzspConfigId::EzspConfigAddressTableSize => 0x05,
            EzspConfigId::EzspConfigMulticastTableSize => 0x06,
            EzspConfigId::EzspConfigRouteTableSize => 0x07,
            EzspConfigId::EzspConfigDiscoveryTableSize => 0x08,
            EzspConfigId::EzspConfigStackProfile => 0x0c,
            EzspConfigId::EzspConfigSecurityLevel => 0x0d,
            EzspConfigId::EzspConfigMaxHops => 0x10,
            EzspConfigId::EzspConfigMaxEndDeviceChildren => 0x11,
            EzspConfigId::EzspConfigIndirectTransmissionTimeout => 0x12,
            EzspConfigId::EzspConfigEndDevicePollTimeout => 0x13,
            EzspConfigId::EzspConfigTxPowerMode => 0x17,
            EzspConfigId::EzspConfigDisableRelay => 0x18,
            EzspConfigId::EzspConfigTrustCenterAddressCacheSize => 0x19,
            EzspConfigId::EzspConfigSourceRouteTableSize => 0x1a,
            EzspConfigId::EzspConfigFragmentWindowSize => 0x1c,
            EzspConfigId::EzspConfigFragmentDelayMs => 0x1d,
            EzspConfigId::EzspConfigKeyTableSize => 0x1e,
            EzspConfigId::EzspConfigApsAckTimeout => 0x1f,
            EzspConfigId::EzspConfigBeaconJitterDuration => 0x20,
            EzspConfigId::EzspConfigPanIdConflictReportThreshold => 0x22,
            EzspConfigId::EzspConfigRequestKeyTimeout => 0x24,
            EzspConfigId::EzspConfigCertificateTableSize => 0x29,
            EzspConfigId::EzspConfigApplicationZdoFlags => 0x2a,
            EzspConfigId::EzspConfigBroadcastTableSize => 0x2b,
            EzspConfigId::EzspConfigMacFilterTableSize => 0x2c,
            EzspConfigId::EzspConfigSupportedNetworks => 0x2d,
            EzspConfigId::EzspConfigSendMulticastsToSleepyAddress => 0x2e,
            EzspConfigId::EzspConfigZllGroupAddresses => 0x2f,
            EzspConfigId::EzspConfigZllRssiThreshold => 0x30,
            EzspConfigId::EzspConfigMtorrFlowControl => 0x33,
            EzspConfigId::EzspConfigRetryQueueSize => 0x34,
            EzspConfigId::EzspConfigNewBroadcastEntryThreshold => 0x35,
            EzspConfigId::EzspConfigTransientKeyTimeoutS => 0x36,
            EzspConfigId::EzspConfigBroadcastMinAcksNeeded => 0x37,
            EzspConfigId::EzspConfigTcRejoinsUsingWellKnownKeyTimeoutS => 0x38,
            EzspConfigId::EzspConfigCtuneValue => 0x39,
            EzspConfigId::EzspConfigAssumeTcConcentratorType => 0x40,
            EzspConfigId::EzspConfigGpProxyTableSize => 0x41,
            EzspConfigId::EzspConfigGpSinkTableSize => 0x42,
        }
    }

    /// The value a byte is read as, as `spec_of` says.
    pub fn of(x: u8) -> (r: Option<Self>)
        ensures
            r == Self::spec_of(x),
    {
        match x {
            0x01 => Some(EzspConfigId::EzspConfigPacketBufferCount),
            0x02 => Some(EzspConfigId::EzspConfigNeighborTableSize),
            0x03 => Some(EzspConfigId::EzspConfigApsUnicastMessageCount),
            0x04 => Some(EzspConfigId::EzspConfigBindingTableSize),
            0x05 => Some(EzspConfigId::EzspConfigAddressTableSize),
            0x06 => Some(EzspConfigId::EzspConfigMulticastTableSize),
            0x07 => Some(EzspConfigId::EzspConfigRouteTableSize),
            0x08 => Some(EzspConfigId::EzspConfigDiscoveryTableSize),
            0x0c => Some(EzspConfigId::EzspConfigStackProfile),
            0x0d => Some(EzspConfigId::EzspConfigSecurityLevel),
            0x10 => Some(EzspConfigId::EzspConfigMaxHops),
            0x11 => Some(EzspConfigId::EzspConfigMaxEndDeviceChildren),
            0x12 => Some(EzspConfigId::EzspConfigIndirectTransmissionTimeout),
            0x13 => Some(EzspConfigId::EzspConfigEndDevicePollTimeout),
            0x17 => Some(EzspConfigId::EzspConfigTxPowerMode),
            0x18 => Some(EzspConfigId::EzspConfigDisableRelay),
            0x19 => Some(EzspConfigId::EzspConfigTrustCenterAddressCacheSize),
            0x1a => Some(EzspConfigId::EzspConfigSourceRouteTableSize),
            0x1c => Some(EzspConfigId::EzspConfigFragmentWindowSize),
            0x1d => Some(EzspConfigId::EzspConfigFragmentDelayMs),
            0x1e => Some(EzspConfigId::EzspConfigKeyTableSize),
            0x1f => Some(EzspConfigId::EzspConfigApsAckTimeout),
            0x20 => Some(EzspConfigId::EzspConfigBeaconJitterDuration),
            0x22 => Some(EzspConfigId::EzspConfigPanIdConflictReportThreshold),
            0x24 => Some(EzspConfigId::EzspConfigRequestKeyTimeout),
            0x29 => Some(EzspConfigId::EzspConfigCertificateTableSize),
            0x2a => Some(EzspConfigId::EzspConfigApplicationZdoFlags),
            0x2b => Some(EzspConfigId::EzspConfigBroadcastTableSize),
            0x2c => Some(EzspConfigId::EzspConfigMacFilterTableSize),
            0x2d => Some(EzspConfigId::EzspConfigSupportedNetworks),
            0x2e => Some(EzspConfigId::EzspConfigSendMulticastsToSleepyAddress),
            0x2f => Some(EzspConfigId::EzspConfigZllGroupAddresses),
            0x30 => Some(EzspConfigId::EzspConfigZllRssiThreshold),
            0x33 => Some(EzspConfigId::EzspConfigMtorrFlowControl),
            0x34 => Some(EzspConfigId::EzspConfigRetryQueueSize),
            0x35 => Some(EzspConfigId::EzspConfigNewBroadcastEntryThreshold),
            0x36 => Some(EzspConfigId::EzspConfigTransientKeyTimeoutS),
            0x37 => Some(EzspConfigId::EzspConfigBroadcastMinAcksNeeded),
            0x38 => Some(EzspConfigId::EzspConfigTcRejoinsUsingWellKnownKeyTimeoutS),
            0x39 => Some(EzspConfigId::EzspConfigCtuneValue),
            0x40 => Some(EzspConfigId::EzspConfigAssumeTcConcentratorType),
            0x41 => Some(EzspConfigId::EzspConfigGpProxyTableSize),
            0x42 => Some(EzspConfigId::EzspConfigGpSinkTableSize),
            _ => None,
        }
    }
}

/// The status codes of the EZSP layer.
#[derive(Debug, Clone, Copy, PartialEq, Eq, Structural)]
pub enum EzspStatus {
    /// Success.
    EzspSuccess,
    /// Fatal error.
    EzspSpiErrFatal,
    /// The Response frame of the current transaction indicates the NCP has reset.
    EzspSpiErrNcpReset,
    /// The NCP is reporting that the Command frame of the current transaction is oversized (the length byte is too large).
    EzspSpiErrOversizedEzspFrame,
    /// The Response frame of the current transaction indicates the previous transaction was aborted (nSSEL deasserted too soon).
    EzspSpiErrAbortedTransaction,
    /// The Response frame of the current transaction indicates the frame terminator is missing from the Command frame.
    EzspSpiErrMissingFrameTerminator,
    /// The NCP has not provided a Response within the time limit defined by WAIT_SECTION_TIMEOUT.
    EzspSpiErrWaitSectionTimeout,
    /// The Response frame from the NCP is missing the frame terminator.
    EzspSpiErrNoFrameTerminator,
    /// The Host attempted to send an oversized Command (the length byte is too large) and the AVR's spi-protocol.c blocked the transmission.
    EzspSpiErrEzspCommandOversized,
    /// The NCP attempted to send an oversized Response (the length byte is too large) and the AVR's spi-protocol.c blocked the reception.
    EzspSpiErrEzspResponseOversized,
    /// The Host has sent the Command and is still waiting for the NCP to send a Response.
    EzspSpiWaitingForResponse,
    /// The NCP has not asserted nHOST_INT within the time limit defined by WAKE_HANDSHAKE_TIMEOUT.
    EzspSpiErrHandshakeTimeout,
    /// The NCP has not asserted nHOST_INT after an NCP reset within the time limit defined by STARTUP_TIMEOUT.
    EzspSpiErrStartupTimeout,
    /// The Host attempted to verify the SPI Protocol activity and version number, and the verification failed.
    EzspSpiErrStartupFail,
    /// The Host has sent a command with a SPI Byte that is unsupported by the current mode the NCP is operating in.
    EzspSpiErrUnsupportedSpiCommand,
    /// Operation not yet complete.
    EzspAshInProgress,
    /// Fatal error detected by host.
    EzspHostFatalError,
    /// Fatal error detected by NCP.
    EzspAshNcpFatalError,
    /// Tried to send DATA frame too long.
    EzspDataFrameTooLong,
    /// Tried to send DATA frame too short.
    EzspDataFrameTooShort,
    /// No space for tx'ed DATA frame.
    EzspNoTxSpace,
    /// No space for rec'd DATA frame.
    EzspNoRxSpace,
    /// No receive data available.
    EzspNoRxData,
    /// Not in Connected state.
    EzspNotConnected,
    /// The NCP received a command before the EZSP version had been set.
    EzspErrorVersionNotSet,
    /// The NCP received a command containing an unsupported frame ID.
    EzspErrorInvalidFrameId,
    /// The direction flag in the frame control field was incorrect.
    EzspErrorWrongDirection,
    /// The truncated flag in the frame control field was set, indicating there was not enough memory available to complete the response or that the response would have exceeded the maximum EZSP frame length.
    EzspErrorTruncated,
    /// The overflow flag in the frame control field was set, indicating one or more callbacks occurred since the previous response and there was not enough memory available to report them to the Host.
    EzspErrorOverflow,
    /// Insufficient memory was available.
    EzspErrorOutOfMemory,
    /// The value was out of bounds.
    EzspErrorInvalidValue,
    /// The configuration id was not recognized.
    EzspErrorInvalidId,
    /// Configuration values can no longer be modified.
    EzspErrorInvalidCall,
    /// The NCP failed to respond to a command.
    EzspErrorNoResponse,
    /// The length of the command exceeded the maximum EZSP frame length.
    EzspErrorCommandTooLong,
    /// The UART receive queue was full causing a callback response to be dropped.
    EzspErrorQueueFull,
    /// The command has been filtered out by NCP.
    EzspErrorCommandFiltered,
    /// EZSP Security Key is already set
    EzspErrorSecurityKeyAlreadySet,
    /// EZSP Security Type is invalid
    EzspErrorSecurityTypeInvalid,
    /// EZSP Security Parameters are invalid
    EzspErrorSecurityParametersInvalid,
    /// EZSP Security Parameters are already set
    EzspErrorSecurityParametersAlreadySet,
    /// EZSP Security Key is not set
    EzspErrorSecurityKeyNotSet,
    /// EZSP Security Parameters are not set
    EzspErrorSecurityParametersNotSet,
    /// Received frame with unsupported control byte
    EzspErrorUnsupportedControl,
    /// Received frame is unsecure, when security is established
    EzspErrorUnsecureFrame,
    /// Incompatible ASH version
    EzspAshErrorVersion,
    /// Exceeded max ACK timeouts
    EzspAshErrorTimeouts,
    /// Timed out waiting for RSTACK
    EzspAshErrorResetFail,
    /// Unexpected ncp reset
    EzspAshErrorNcpReset,
    /// Serial port initialization failed
    EzspErrorSerialInit,
    /// Invalid ncp processor type
    EzspAshErrorNcpType,
    /// Invalid ncp reset method
    EzspAshErrorResetMethod,
    /// XON/XOFF not supported by host driver
    EzspAshErrorXonXoff,
    /// ASH protocol started
    EzspAshStarted,
    /// ASH protocol connected
    EzspAshConnected,
    /// ASH protocol disconnected
    EzspAshDisconnected,
    /// Timer expired waiting for ack
    EzspAshAckTimeout,
    /// Frame in progress cancelled
    EzspAshCancelled,
    /// Received frame out of sequence
    EzspAshOutOfSequence,
    /// Received frame with CRC error
    EzspAshBadCrc,
    /// Received frame with comm error
    EzspAshCommError,
    /// Received frame with bad ackNum
    EzspAshBadAcknum,
    /// Received frame shorter than minimum
    EzspAshTooShort,
    /// Received frame longer than maximum
    EzspAshTooLong,
    /// Received frame with illegal control byte
    EzspAshBadControl,
    /// Received frame with illegal length for its type
    EzspAshBadLength,
    /// Received ASH Ack
    EzspAshAckReceived,
    /// Sent ASH Ack
    EzspAshAckSent,
    /// Received ASH Nak
    EzspAshNakReceived,
    /// Sent ASH Nak
    EzspAshNakSent,
    /// Received ASH RST
    EzspAshRstReceived,
    /// Sent ASH RST
    EzspAshRstSent,
    /// ASH Status
    EzspAshStatus,
    /// ASH TX
    EzspAshTx,
    /// ASH RX
    EzspAshRx,
    /// Failed to connect to CPC daemon or failed to open CPC endpoint
    EzspCpcErrorInit,
    /// No reset or error
    EzspNoError,
}

impl EzspStatus {
    /// The byte written for the value.
    pub open spec fn spec_id(self) -> u8 {
        match self {
            EzspStatus::EzspSuccess => 0x00,
            EzspStatus::EzspSpiErrFatal => 0x10,
            EzspStatus::EzspSpiErrNcpReset => 0x11,
            EzspStatus::EzspSpiErrOversizedEzspFrame => 0x12,
            EzspStatus::EzspSpiErrAbortedTransaction => 0x13,
            EzspStatus::EzspSpiErrMissingFrameTerminator => 0x14,
            EzspStatus::EzspSpiErrWaitSectionTimeout => 0x15,
            EzspStatus::EzspSpiErrNoFrameTerminator => 0x16,
            EzspStatus::EzspSpiErrEzspCommandOversized => 0x17,
            EzspStatus::EzspSpiErrEzspResponseOversized => 0x18,
            EzspStatus::EzspSpiWaitingForResponse => 0x19,
            EzspStatus::EzspSpiErrHandshakeTimeout => 0x1a,
            EzspStatus::EzspSpiErrStartupTimeout => 0x1b,
            EzspStatus::EzspSpiErrStartupFail => 0x1c,
            EzspStatus::EzspSpiErrUnsupportedSpiCommand => 0x1d,
            EzspStatus::EzspAshInProgress => 0x20,
            EzspStatus::EzspHostFatalError => 0x21,
            EzspStatus::EzspAshNcpFatalError => 0x22,
            EzspStatus::EzspDataFrameTooLong => 0x23,
            EzspStatus::EzspDataFrameTooShort => 0x24,
            EzspStatus::EzspNoTxSpace => 0x25,
            EzspStatus::EzspNoRxSpace => 0x26,
            EzspStatus::EzspNoRxData => 0x27,
            EzspStatus::EzspNotConnected => 0x28,
            EzspStatus::EzspErrorVersionNotSet => 0x30,
            EzspStatus::EzspErrorInvalidFrameId => 0x31,
            EzspStatus::EzspErrorWrongDirection => 0x32,
            EzspStatus::EzspErrorTruncated => 0x33,
            EzspStatus::EzspErrorOverflow => 0x34,
            EzspStatus::EzspErrorOutOfMemory => 0x35,
            EzspStatus::EzspErrorInvalidValue => 0x36,
            EzspStatus::EzspErrorInvalidId => 0x37,
            EzspStatus::EzspErrorInvalidCall => 0x38,
            EzspStatus::EzspErrorNoResponse => 0x39,
            EzspStatus::EzspErrorCommandTooLong => 0x40,
            EzspStatus::EzspErrorQueueFull => 0x41,
            EzspStatus::EzspErrorCommandFiltered => 0x42,
            EzspStatus::EzspErrorSecurityKeyAlreadySet => 0x43,
            EzspStatus::EzspErrorSecurityTypeInvalid => 0x44,
            EzspStatus::EzspErrorSecurityParametersInvalid => 0x45,
            EzspStatus::EzspErrorSecurityParametersAlreadySet => 0x46,
            EzspStatus::EzspErrorSecurityKeyNotSet => 0x47,
            EzspStatus::EzspErrorSecurityParametersNotSet => 0x48,
            EzspStatus::EzspErrorUnsupportedControl => 0x49,
            EzspStatus::EzspErrorUnsecureFrame => 0x4a,
            EzspStatus::EzspAshErrorVersion => 0x50,
            EzspStatus::EzspAshErrorTimeouts => 0x51,
            EzspStatus::EzspAshErrorResetFail => 0x52,
            EzspStatus::EzspAshErrorNcpReset => 0x53,
            EzspStatus::EzspErrorSerialInit => 0x54,
            EzspStatus::EzspAshErrorNcpType => 0x55,
            EzspStatus::EzspAshErrorResetMethod => 0x56,
            EzspStatus::EzspAshErrorXonXoff => 0x57,
            EzspStatus::EzspAshStarted => 0x70,
            EzspStatus::EzspAshConnected => 0x71,
            EzspStatus::EzspAshDisconnected => 0x72,
            EzspStatus::EzspAshAckTimeout => 0x73,
            EzspStatus::EzspAshCancelled => 0x74,
            EzspStatus::EzspAshOutOfSequence => 0x75,
            EzspStatus::EzspAshBadCrc => 0x76,
            EzspStatus::EzspAshCommError => 0x77,
            EzspStatus::EzspAshBadAcknum => 0x78,
            EzspStatus::EzspAshTooShort => 0x79,
            EzspStatus::EzspAshTooLong => 0x7a,
            EzspStatus::EzspAshBadControl => 0x7b,
            EzspStatus::EzspAshBadLength => 0x7c,
            EzspStatus::EzspAshAckReceived => 0x7d,
            EzspStatus::EzspAshAckSent => 0x7e,
            EzspStatus::EzspAshNakReceived => 0x7f,
            EzspStatus::EzspAshNakSent => 0x80,
            EzspStatus::EzspAshRstReceived => 0x81,
            EzspStatus::EzspAshRstSent => 0x82,
            EzspStatus::EzspAshStatus => 0x83,
            EzspStatus::EzspAshTx => 0x84,
            EzspStatus::EzspAshRx => 0x85,
            EzspStatus::EzspCpcErrorInit => 0x86,
            EzspStatus::EzspNoError => 0xff,
        }
    }

    /// The value a byte is read as, if any.
    pub open spec fn spec_of(x: u8) -> Option<Self> {
        match x {
            0x00 => Some(EzspStatus::EzspSuccess),
            0x10 => Some(EzspStatus::EzspSpiErrFatal),
            0x11 => Some(EzspStatus::EzspSpiErrNcpReset),
            0x12 => Some(EzspStatus::EzspSpiErrOversizedEzspFrame),
            0x13 => Some(EzspStatus::EzspSpiErrAbortedTransaction),
            0x14 => Some(EzspStatus::EzspSpiErrMissingFrameTerminator),
            0x15 => Some(EzspStatus::EzspSpiErrWaitSectionTimeout),
            0x16 => Some(EzspStatus::EzspSpiErrNoFrameTerminator),
            0x17 => Some(EzspStatus::EzspSpiErrEzspCommandOversized),
            0x18 => Some(EzspStatus::EzspSpiErrEzspResponseOversized),
            0x19 => Some(EzspStatus::EzspSpiWaitingForResponse),
            0x1a => Some(EzspStatus::EzspSpiErrHandshakeTimeout),
            0x1b => Some(EzspStatus::EzspSpiErrStartupTimeout),
            0x1c => Some(EzspStatus::EzspSpiErrStartupFail),
            0x1d => Some(EzspStatus::EzspSpiErrUnsupportedSpiCommand),
            0x20 => Some(EzspStatus::EzspAshInProgress),
            0x21 => Some(EzspStatus::EzspHostFatalError),
            0x22 => Some(EzspStatus::EzspAshNcpFatalError),
            0x23 => Some(EzspStatus::EzspDataFrameTooLong),
            0x24 => Some(EzspStatus::EzspDataFrameTooShort),
            0x25 => Some(EzspStatus::EzspNoTxSpace),
            0x26 => Some(EzspStatus::EzspNoRxSpace),
            0x27 => Some(EzspStatus::EzspNoRxData),
            0x28 => Some(EzspStatus::EzspNotConnected),
            0x30 => Some(EzspStatus::EzspErrorVersionNotSet),
            0x31 => Some(EzspStatus::EzspErrorInvalidFrameId),
            0x32 => Some(EzspStatus::EzspErrorWrongDirection),
            0x33 => Some(EzspStatus::EzspErrorTruncated),
            0x34 => Some(EzspStatus::EzspErrorOverflow),
            0x35 => Some(EzspStatus::EzspErrorOutOfMemory),
            0x36 => Some(EzspStatus::EzspErrorInvalidValue),
            0x37 => Some(EzspStatus::EzspErrorInvalidId),
            0x38 => Some(EzspStatus::EzspErrorInvalidCall),
            0x39 => Some(EzspStatus::EzspErrorNoResponse),
            0x40 => Some(EzspStatus::EzspErrorCommandTooLong),
            0x41 => Some(EzspStatus::EzspErrorQueueFull),
            0x42 => Some(EzspStatus::EzspErrorCommandFiltered),
            0x43 => Some(EzspStatus::EzspErrorSecurityKeyAlreadySet),
            0x44 => Some(EzspStatus::EzspErrorSecurityTypeInvalid),
            0x45 => Some(EzspStatus::EzspErrorSecurityParametersInvalid),
            0x46 => Some(EzspStatus::EzspErrorSecurityParametersAlreadySet),
            0x47 => Some(EzspStatus::EzspErrorSecurityKeyNotSet),
            0x48 => Some(EzspStatus::EzspErrorSecurityParametersNotSet),
            0x49 => Some(EzspStatus::EzspErrorUnsupportedControl),
            0x4a => Some(EzspStatus::EzspErrorUnsecureFrame),
            0x50 => Some(EzspStatus::EzspAshErrorVersion),
            0x51 => Some(EzspStatus::EzspAshErrorTimeouts),
            0x52 => Some(EzspStatus::EzspAshErrorResetFail),
            0x53 => Some(EzspStatus::EzspAshErrorNcpReset),
            0x54 => Some(EzspStatus::EzspErrorSerialInit),
            0x55 => Some(EzspStatus::EzspAshErrorNcpType),
            0x56 => Some(EzspStatus::EzspAshErrorResetMethod),
            0x57 => Some(EzspStatus::EzspAshErrorXonXoff),
            0x70 => Some(EzspStatus::EzspAshStarted),
            0x71 => Some(EzspStatus::EzspAshConnected),
            0x72 => Some(EzspStatus::EzspAshDisconnected),
            0x73 => Some(EzspStatus::EzspAshAckTimeout),
            0x74 => Some(EzspStatus::EzspAshCancelled),
            0x75 => Some(EzspStatus::EzspAshOutOfSequence),
            0x76 => Some(EzspStatus::EzspAshBadCrc),
            0x77 => Some(EzspStatus::EzspAshCommError),
            0x78 => Some(EzspStatus::EzspAshBadAcknum),
            0x79 => Some(EzspStatus::EzspAshTooShort),
            0x7a => Some(EzspStatus::EzspAshTooLong),
            0x7b => Some(EzspStatus::EzspAshBadControl),
            0x7c => Some(EzspStatus::EzspAshBadLength),
            0x7d => Some(EzspStatus::EzspAshAckReceived),
            0x7e => Some(EzspStatus::EzspAshAckSent),
            0x7f => Some(EzspStatus::EzspAshNakReceived),
            0x80 => Some(EzspStatus::EzspAshNakSent),
            0x81 => Some(EzspStatus::EzspAshRstReceived),
            0x82 => Some(EzspStatus::EzspAshRstSent),
            0x83 => Some(EzspStatus::EzspAshStatus),
            0x84 => Some(EzspStatus::EzspAshTx),
            0x85 => Some(EzspStatus::EzspAshRx),
            0x86 => Some(EzspStatus::EzspCpcErrorInit),
            0xff => Some(EzspStatus::EzspNoError),
            _ => None,
        }
    }

    /// The byte written for the value, as `spec_id` says.
    pub fn id(&self) -> (r: u8)
        ensures
            r == self.spec_id(),
    {
        match self {
            EzspStatus::EzspSuccess => 0x00,
            EzspStatus::EzspSpiErrFatal => 0x10,
            EzspStatus::EzspSpiErrNcpReset => 0x11,
            EzspStatus::EzspSpiErrOversizedEzspFrame => 0x12,
            EzspStatus::EzspSpiErrAbortedTransaction => 0x13,
            EzspStatus::EzspSpiErrMissingFrameTerminator => 0x14,
            EzspStatus::EzspSpiErrWaitSectionTimeout => 0x15,
            EzspStatus::EzspSpiErrNoFrameTerminator => 0x16,
            EzspStatus::EzspSpiErrEzspCommandOversized => 0x17,
            EzspStatus::EzspSpiErrEzspResponseOversized => 0x18,
            EzspStatus::EzspSpiWaitingForResponse => 0x19,
            EzspStatus::EzspSpiErrHandshakeTimeout => 0x1a,
            EzspStatus::EzspSpiErrStartupTimeout => 0x1b,
            EzspStatus::EzspSpiErrStartupFail => 0x1c,
            EzspStatus::EzspSpiErrUnsupportedSpiCommand => 0x1d,
            EzspStatus::EzspAshInProgress => 0x20,
            EzspStatus::EzspHostFatalError => 0x21,
            EzspStatus::EzspAshNcpFatalError => 0x22,
            EzspStatus::EzspDataFrameTooLong => 0x23,
            EzspStatus::EzspDataFrameTooShort => 0x24,
            EzspStatus::EzspNoTxSpace => 0x25,
            EzspStatus::EzspNoRxSpace => 0x26,
            EzspStatus::EzspNoRxData => 0x27,
            EzspStatus::EzspNotConnected => 0x28,
            EzspStatus::EzspErrorVersionNotSet => 0x30,
            EzspStatus::EzspErrorInvalidFrameId => 0x31,
            EzspStatus::EzspErrorWrongDirection => 0x32,
            EzspStatus::EzspErrorTruncated => 0x33,
            EzspStatus::EzspErrorOverflow => 0x34,
            EzspStatus::EzspErrorOutOfMemory => 0x35,
            EzspStatus::EzspErrorInvalidValue => 0x36,
            EzspStatus::EzspErrorInvalidId => 0x37,
            EzspStatus::EzspErrorInvalidCall => 0x38,
            EzspStatus::EzspErrorNoResponse => 0x39,
            EzspStatus::EzspErrorCommandTooLong => 0x40,
            EzspStatus::EzspErrorQueueFull => 0x41,
            EzspStatus::EzspErrorCommandFiltered => 0x42,
            EzspStatus::EzspErrorSecurityKeyAlreadySet => 0x43,
            EzspStatus::EzspErrorSecurityTypeInvalid => 0x44,
            EzspStatus::EzspErrorSecurityParametersInvalid => 0x45,
            EzspStatus::EzspErrorSecurityParametersAlreadySet => 0x46,
            EzspStatus::EzspErrorSecurityKeyNotSet => 0x47,
            EzspStatus::EzspErrorSecurityParametersNotSet => 0x48,
            EzspStatus::EzspErrorUnsupportedControl => 0x49,
            EzspStatus::EzspErrorUnsecureFrame => 0x4a,
            EzspStatus::EzspAshErrorVersion => 0x50,
            EzspStatus::EzspAshErrorTimeouts => 0x51,
            EzspStatus::EzspAshErrorResetFail => 0x52,
            EzspStatus::EzspAshErrorNcpReset => 0x53,
            EzspStatus::EzspErrorSerialInit => 0x54,
            EzspStatus::EzspAshErrorNcpType => 0x55,
            EzspStatus::EzspAshErrorResetMethod => 0x56,
            EzspStatus::EzspAshErrorXonXoff => 0x57,
            EzspStatus::EzspAshStarted => 0x70,
            EzspStatus::EzspAshConnected => 0x71,
            EzspStatus::EzspAshDisconnected => 0x72,
            EzspStatus::EzspAshAckTimeout => 0x73,
            EzspStatus::EzspAshCancelled => 0x74,
            EzspStatus::EzspAshOutOfSequence => 0x75,
            EzspStatus::EzspAshBadCrc => 0x76,
            EzspStatus::EzspAshCommError => 0x77,
            EzspStatus::EzspAshBadAcknum => 0x78,
            EzspStatus::EzspAshTooShort => 0x79,
            EzspStatus::EzspAshTooLong => 0x7a,
            EzspStatus::EzspAshBadControl => 0x7b,
            EzspStatus::EzspAshBadLength => 0x7c,
            EzspStatus::EzspAshAckReceived => 0x7d,
            EzspStatus::EzspAshAckSent => 0x7e,
            EzspStatus::EzspAshNakReceived => 0x7f,
            EzspStatus::EzspAshNakSent => 0x80,
            EzspStatus::EzspAshRstReceived => 0x81,
            EzspStatus::EzspAshRstSent => 0x82,
            EzspStatus::EzspAshStatus => 0x83,
            EzspStatus::EzspAshTx => 0x84,
            EzspStatus::EzspAshRx => 0x85,
            EzspStatus::EzspCpcErrorInit => 0x86,
            EzspStatus::EzspNoError => 0xff,
        }
    }

    /// The value a byte is read as, as `spec_of` says.
    pub fn of(x: u8) -> (r: Option<Self>)
        ensures
            r == Self::spec_of(x),
    {
        match x {
            0x00 => Some(EzspStatus::EzspSuccess),
            0x10 => Some(EzspStatus::EzspSpiErrFatal),
            0x11 => Some(EzspStatus::EzspSpiErrNcpReset),
            0x12 => Some(EzspStatus::EzspSpiErrOversizedEzspFrame),
            0x13 => Some(EzspStatus::EzspSpiErrAbortedTransaction),
            0x14 => Some(EzspStatus::EzspSpiErrMissingFrameTerminator),
            0x15 => Some(EzspStatus::EzspSpiErrWaitSectionTimeout),
            0x16 => Some(EzspStatus::EzspSpiErrNoFrameTerminator),
            0x17 => Some(EzspStatus::EzspSpiErrEzspCommandOversized),
            0x18 => Some(EzspStatus::EzspSpiErrEzspResponseOversized),
            0x19 => Some(EzspStatus::EzspSpiWaitingForResponse),
            0x1a => Some(EzspStatus::EzspSpiErrHandshakeTimeout),
            0x1b => Some(EzspStatus::EzspSpiErrStartupTimeout),
            0x1c => Some(EzspStatus::EzspSpiErrStartupFail),
            0x1d => Some(EzspStatus::EzspSpiErrUnsupportedSpiCommand),
            0x20 => Some(EzspStatus::EzspAshInProgress),
            0x21 => Some(EzspStatus::EzspHostFatalError),
            0x22 => Some(EzspStatus::EzspAshNcpFatalError),
            0x23 => Some(EzspStatus::EzspDataFrameTooLong),
            0x24 => Some(EzspStatus::EzspDataFrameTooShort),
            0x25 => Some(EzspStatus::EzspNoTxSpace),
            0x26 => Some(EzspStatus::EzspNoRxSpace),
            0x27 => Some(EzspStatus::EzspNoRxData),
            0x28 => Some(EzspStatus::EzspNotConnected),
            0x30 => Some(EzspStatus::EzspErrorVersionNotSet),
            0x31 => Some(EzspStatus::EzspErrorInvalidFrameId),
            0x32 => Some(EzspStatus::EzspErrorWrongDirection),
            0x33 => Some(EzspStatus::EzspErrorTruncated),
            0x34 => Some(EzspStatus::EzspErrorOverflow),
            0x35 => Some(EzspStatus::EzspErrorOutOfMemory),
            0x36 => Some(EzspStatus::EzspErrorInvalidValue),
            0x37 => Some(EzspStatus::EzspErrorInvalidId),
            0x38 => Some(EzspStatus::EzspErrorInvalidCall),
            0x39 => Some(EzspStatus::EzspErrorNoResponse),
            0x40 => Some(EzspStatus::EzspErrorCommandTooLong),
            0x41 => Some(EzspStatus::EzspErrorQueueFull),
            0x42 => Some(EzspStatus::EzspErrorCommandFiltered),
            0x43 => Some(EzspStatus::EzspErrorSecurityKeyAlreadySet),
            0x44 => Some(EzspStatus::EzspErrorSecurityTypeInvalid),
            0x45 => Some(EzspStatus::EzspErrorSecurityParametersInvalid),
            0x46 => Some(EzspStatus::EzspErrorSecurityParametersAlreadySet),
            0x47 => Some(EzspStatus::EzspErrorSecurityKeyNotSet),
            0x48 => Some(EzspStatus::EzspErrorSecurityParametersNotSet),
            0x49 => Some(EzspStatus::EzspErrorUnsupportedControl),
            0x4a => Some(EzspStatus::EzspErrorUnsecureFrame),
            0x50 => Some(EzspStatus::EzspAshErrorVersion),
            0x51 => Some(EzspStatus::EzspAshErrorTimeouts),
            0x52 => Some(EzspStatus::EzspAshErrorResetFail),
            0x53 => Some(EzspStatus::EzspAshErrorNcpReset),
            0x54 => Some(EzspStatus::EzspErrorSerialInit),
            0x55 => Some(EzspStatus::EzspAshErrorNcpType),
            0x56 => Some(EzspStatus::EzspAshErrorResetMethod),
            0x57 => Some(EzspStatus::EzspAshErrorXonXoff),
            0x70 => Some(EzspStatus::EzspAshStarted),
            0x71 => Some(EzspStatus::EzspAshConnected),
            0x72 => Some(EzspStatus::EzspAshDisconnected),
            0x73 => Some(EzspStatus::EzspAshAckTimeout),
            0x74 => Some(EzspStatus::EzspAshCancelled),
            0x75 => Some(EzspStatus::EzspAshOutOfSequence),
            0x76 => Some(EzspStatus::EzspAshBadCrc),
            0x77 => Some(EzspStatus::EzspAshCommError),
            0x78 => Some(EzspStatus::EzspAshBadAcknum),
            0x79 => Some(EzspStatus::EzspAshTooShort),
            0x7a => Some(EzspStatus::EzspAshTooLong),
            0x7b => Some(EzspStatus::EzspAshBadControl),
            0x7c => Some(EzspStatus::EzspAshBadLength),
            0x7d => Some(EzspStatus::EzspAshAckReceived),
            0x7e => Some(EzspStatus::EzspAshAckSent),
            0x7f => Some(EzspStatus::EzspAshNakReceived),
            0x80 => Some(EzspStatus::EzspAshNakSent),
            0x81 => Some(EzspStatus::EzspAshRstReceived),
            0x82 => Some(EzspStatus::EzspAshRstSent),
            0x83 => Some(EzspStatus::EzspAshStatus),
            0x84 => Some(EzspStatus::EzspAshTx),
            0x85 => Some(EzspStatus::EzspAshRx),
            0x86 => Some(EzspStatus::EzspCpcErrorInit),
            0xff => Some(EzspStatus::EzspNoError),
            _ => None,
        }
    }
}

/// The policies of the network co-processor.
#[derive(Debug, Clone, Copy, PartialEq, Eq, Structural)]
pub enum EzspPolicyId {
    /// Controls trust center behavior.
    EzspTrustCenterPolicy,
    /// Controls how external binding modification requests are handled.
    EzspBindingModificationPolicy,
    /// Controls whether the Host supplies unicast replies.
    EzspUnicastRepliesPolicy,
    /// Controls whether pollHandler callbacks are generated.
    EzspPollHandlerPolicy,
    /// Controls whether the message contents are included in the messageSentHandler callback.
    EzspMessageContentsInCallbackPolicy,
    /// Controls whether the Trust Center will respond to Trust Center link key requests.
    EzspTcKeyRequestPolicy,
    /// Controls whether the Trust Center will respond to application link key requests.
    EzspAppKeyRequestPolicy,
    /// Controls whether ZigBee packets that appear invalid are automatically dropped by the stack. A counter will be incremented when this occurs.
    EzspPacketValidateLibraryPolicy,
    /// Controls whether the stack will process ZLL messages.
    EzspZllPolicy,
    /// Controls whether Trust Center (insecure) rejoins for devices using the well-known link key are accepted. If rejoining using the well-known key is allowed, it is disabled again after sli_zigbee_allow_tc_rejoins_using_well_known_key_timeout_sec seconds.
    EzspTcRejoinsUsingWellKnownKeyPolicy,
}

impl EzspPolicyId {
    /// The byte written for the value.
    pub open spec fn spec_id(self) -> u8 {
        match self {
            EzspPolicyId::EzspTrustCenterPolicy => 0x00,
            EzspPolicyId::EzspBindingModificationPolicy => 0x01,
            EzspPolicyId::EzspUnicastRepliesPolicy => 0x02,
            EzspPolicyId::EzspPollHandlerPolicy => 0x03,
            EzspPolicyId::EzspMessageContentsInCallbackPolicy => 0x04,
            EzspPolicyId::EzspTcKeyRequestPolicy => 0x05,
            EzspPolicyId::EzspAppKeyRequestPolicy => 0x06,
            EzspPolicyId::EzspPacketValidateLibraryPolicy => 0x07,
            EzspPolicyId::EzspZllPolicy => 0x08,
            EzspPolicyId::EzspTcRejoinsUsingWellKnownKeyPolicy => 0x09,
        }
    }

    /// The value a byte is read as, if any.
    pub open spec fn spec_of(x: u8) -> Option<Self> {
        match x {
            0x00 => Some(EzspPolicyId::EzspTrustCenterPolicy),
            0x01 => Some(EzspPolicyId::EzspBindingModificationPolicy),
            0x02 => Some(EzspPolicyId::EzspUnicastRepliesPolicy),
            0x03 => Some(EzspPolicyId::EzspPollHandlerPolicy),
            0x04 => Some(EzspPolicyId::EzspMessageContentsInCallbackPolicy),
            0x05 => Some(EzspPolicyId::EzspTcKeyRequestPolicy),
            0x06 => Some(EzspPolicyId::EzspAppKeyRequestPolicy),
            0x07 => Some(EzspPolicyId::EzspPacketValidateLibraryPolicy),
            0x08 => Some(EzspPolicyId::EzspZllPolicy),
            0x09 => Some(EzspPolicyId::EzspTcRejoinsUsingWellKnownKeyPolicy),
            _ => None,
        }
    }

    /// The byte written for the value, as `spec_id` says.
    pub fn id(&self) -> (r: u8)
        ensures
            r == self.spec_id(),
    {
        match self {
            EzspPolicyId::EzspTrustCenterPolicy => 0x00,
            EzspPolicyId::EzspBindingModificationPolicy => 0x01,
            EzspPolicyId::EzspUnicastRepliesPolicy => 0x02,
            EzspPolicyId::EzspPollHandlerPolicy => 0x03,
            EzspPolicyId::EzspMessageContentsInCallbackPolicy => 0x04,
            EzspPolicyId::EzspTcKeyRequestPolicy => 0x05,
            EzspPolicyId::EzspAppKeyRequestPolicy => 0x06,
            EzspPolicyId::EzspPacketValidateLibraryPolicy => 0x07,
            EzspPolicyId::EzspZllPolicy => 0x08,
            EzspPolicyId::EzspTcRejoinsUsingWellKnownKeyPolicy => 0x09,
        }
    }

    /// The value a byte is read as, as `spec_of` says.
    pub fn of(x: u8) -> (r: Option<Self>)
        ensures
            r == Self::spec_of(x),
    {
        match x {
            0x00 => Some(EzspPolicyId::EzspTrustCenterPolicy),
            0x01 => Some(EzspPolicyId::EzspBindingModificationPolicy),
            0x02 => Some(EzspPolicyId::EzspUnicastRepliesPolicy),
            0x03 => Some(EzspPolicyId::EzspPollHandlerPolicy),
            0x04 => Some(EzspPolicyId::EzspMessageContentsInCallbackPolicy),
            0x05 => Some(EzspPolicyId::EzspTcKeyRequestPolicy),
            0x06 => Some(EzspPolicyId::EzspAppKeyRequestPolicy),
            0x07 => Some(EzspPolicyId::EzspPacketValidateLibraryPolicy),
            0x08 => Some(EzspPolicyId::EzspZllPolicy),
            0x09 => Some(EzspPolicyId::EzspTcRejoinsUsingWellKnownKeyPolicy),
            _ => None,
        }
    }
}

/// The decisions a policy can be set to.
#[derive(Debug, Clone, Copy, PartialEq, Eq, Structural)]
pub enum EzspDecisionId {
    /// Send the network key in the clear to all joining and rejoining devices.
    EzspAllowJoins,
    /// Send the network key encrypted with the joining or rejoining device's trust center link key. The trust center and any joining or rejoining device are assumed to share a link key, either preconfigured or obtained under a previous policy. This is the default value for the  EZSP_TRUST_CENTER_POLICY.
    EzspAllowPreconfiguredKeyJoins,
    /// Send the network key encrypted with the rejoining device's trust center link key. The trust center and any rejoining device are assumed to share a link key, either preconfigured or obtained under a previous policy. No new devices are allowed to join.
    EzspAllowRejoinsOnly,
    /// Reject all unsecured join and rejoin attempts.
    EzspDisallowAllJoinsAndRejoins,
    /// Send the network key in the clear to all joining devices. Rejoining devices are sent the network key encrypted with their trust center link key. The trust center and any rejoining device are assumed to share a link key, either preconfigured or obtained under a previous policy.
    EzspAllowJoinsRejoinsHaveLinkKey,
    /// Take no action on trust center rejoin attempts.
    EzspIgnoreTrustCenterRejoins,
    /// Admit joins only if there is an entry in the transient key table. This corresponds to the Base Device Behavior specification where a Trust Center enforces all devices to join with an install code-derived link key.
    EzspBdbJoinUsesInstallCodeKey,
    /// Delay sending the network key to a new joining device.
    EzspDeferJoinsRejoinsHaveLinkKey,
    /// EZSP_BINDING_MODIFICATION_POLICY default decision. Do not allow the local binding table to be changed by remote nodes.
    EzspDisallowBindingModification,
    /// EZSP_BINDING_MODIFICATION_POLICY decision. Allow remote nodes to change the local binding table.
    EzspAllowBindingModification,
    /// EZSP_BINDING_MODIFICATION_POLICY decision. Allows remote nodes to set local binding entries only if the entries correspond to endpoints defined on the device, and for output clusters bound to those endpoints.
    EzspCheckBindingModificationsAreValidEndpointClusters,
    /// EZSP_UNICAST_REPLIES_POLICY default decision. The NCP will automatically send an empty reply (containing no payload) for every unicast received.
    EzspHostWillNotSupplyReply,
    /// EZSP_UNICAST_REPLIES_POLICY decision. The NCP will only send a reply if it receives a sendReply command from the Host.
    EzspHostWillSupplyReply,
    /// EZSP_POLL_HANDLER_POLICY default decision. Do not inform the Host when a child polls.
    EzspPollHandlerIgnore,
    /// EZSP_POLL_HANDLER_POLICY decision. Generate a pollHandler callback when a child polls.
    EzspPollHandlerCallback,
    /// EZSP_MESSAGE_CONTENTS_IN_CALLBACK_POLICY default decision. Include only the message tag in the messageSentHandler callback.
    EzspMessageTagOnlyInCallback,
    /// EZSP_MESSAGE_CONTENTS_IN_CALLBACK_POLICY decision. Include both the message tag and the message contents in the messageSentHandler callback.
    EzspMessageTagAndContentsInCallback,
    /// EZSP_TC_KEY_REQUEST_POLICY decision. When the Trust Center receives a request for a Trust Center link key, it will be ignored.
    EzspDenyTcKeyRequests,
    /// EZSP_TC_KEY_REQUEST_POLICY decision. When the Trust Center receives a request for a Trust Center link key, it will reply to it with the corresponding key.
    EzspAllowTcKeyRequestsAndSendCurrentKey,
    /// EZSP_TC_KEY_REQUEST_POLICY decision. When the Trust Center receives a request for a Trust Center link key, it will generate a key to send to the joiner. After generation, the key will be added to the transient key table and after verification this key will be added to the link key table.
    EzspAllowTcKeyRequestAndGenerateNewKey,
    /// EZSP_APP_KEY_REQUEST_POLICY decision. When the Trust Center receives a request for an application link key, it will be ignored.
    EzspDenyAppKeyRequests,
    /// EZSP_APP_KEY_REQUEST_POLICY decision. When the Trust Center receives a request for an application link key, it will randomly generate a key and send it to both partners.
    EzspAllowAppKeyRequests,
    /// Indicates that packet validate library checks are enabled on the NCP.
    EzspPacketValidateLibraryChecksEnabled,
    /// Indicates that packet validate library checks are NOT enabled on the NCP.
    EzspPacketValidateLibraryChecksDisabled,
}

impl EzspDecisionId {
    /// The byte written for the value.
    pub open spec fn spec_id(self) -> u8 {
        match self {
            EzspDecisionId::EzspAllowJoins => 0x00,
            EzspDecisionId::EzspAllowPreconfiguredKeyJoins => 0x01,
            EzspDecisionId::EzspAllowRejoinsOnly => 0x02,
            EzspDecisionId::EzspDisallowAllJoinsAndRejoins => 0x03,
            EzspDecisionId::EzspAllowJoinsRejoinsHaveLinkKey => 0x04,
            EzspDecisionId::EzspIgnoreTrustCenterRejoins => 0x05,
            EzspDecisionId::EzspBdbJoinUsesInstallCodeKey => 0x06,
            EzspDecisionId::EzspDeferJoinsRejoinsHaveLinkKey => 0x07,
            EzspDecisionId::EzspDisallowBindingModification => 0x10,
            EzspDecisionId::EzspAllowBindingModification => 0x11,
            EzspDecisionId::EzspCheckBindingModificationsAreValidEndpointClusters => 0x12,
            EzspDecisionId::EzspHostWillNotSupplyReply => 0x20,
            EzspDecisionId::EzspHostWillSupplyReply => 0x21,
            EzspDecisionId::EzspPollHandlerIgnore => 0x30,
            EzspDecisionId::EzspPollHandlerCallback => 0x31,
            EzspDecisionId::EzspMessageTagOnlyInCallback => 0x40,
            EzspDecisionId::EzspMessageTagAndContentsInCallback => 0x41,
            EzspDecisionId::EzspDenyTcKeyRequests => 0x50,
            EzspDecisionId::EzspAllowTcKeyRequestsAndSendCurrentKey => 0x51,
            EzspDecisionId::EzspAllowTcKeyRequestAndGenerateNewKey => 0x52,
            EzspDecisionId::EzspDenyAppKeyRequests => 0x60,
            EzspDecisionId::EzspAllowAppKeyRequests => 0x61,
            EzspDecisionId::EzspPacketValidateLibraryChecksEnabled => 0x62,
            EzspDecisionId::EzspPacketValidateLibraryChecksDisabled => 0x63,
        }
    }

    /// The value a byte is read as, if any.
    pub open spec fn spec_of(x: u8) -> Option<Self> {
        match x {
            0x00 => Some(EzspDecisionId::EzspAllowJoins),
            0x01 => Some(EzspDecisionId::EzspAllowPreconfiguredKeyJoins),
            0x02 => Some(EzspDecisionId::EzspAllowRejoinsOnly),
            0x03 => Some(EzspDecisionId::EzspDisallowAllJoinsAndRejoins),
            0x04 => Some(EzspDecisionId::EzspAllowJoinsRejoinsHaveLinkKey),
            0x05 => Some(EzspDecisionId::EzspIgnoreTrustCenterRejoins),
            0x06 => Some(EzspDecisionId::EzspBdbJoinUsesInstallCodeKey),
            0x07 => Some(EzspDecisionId::EzspDeferJoinsRejoinsHaveLinkKey),
            0x10 => Some(EzspDecisionId::EzspDisallowBindingModification),
            0x11 => Some(EzspDecisionId::EzspAllowBindingModification),
            0x12 => Some(EzspDecisionId::EzspCheckBindingModificationsAreValidEndpointClusters),
            0x20 => Some(EzspDecisionId::EzspHostWillNotSupplyReply),
            0x21 => Some(EzspDecisionId::EzspHostWillSupplyReply),
            0x30 => Some(EzspDecisionId::EzspPollHandlerIgnore),
            0x31 => Some(EzspDecisionId::EzspPollHandlerCallback),
            0x40 => Some(EzspDecisionId::EzspMessageTagOnlyInCallback),
            0x41 => Some(EzspDecisionId::EzspMessageTagAndContentsInCallback),
            0x50 => Some(EzspDecisionId::EzspDenyTcKeyRequests),
            0x51 => Some(EzspDecisionId::EzspAllowTcKeyRequestsAndSendCurrentKey),
            0x52 => Some(EzspDecisionId::EzspAllowTcKeyRequestAndGenerateNewKey),
            0x60 => Some(EzspDecisionId::EzspDenyAppKeyRequests),
            0x61 => Some(EzspDecisionId::EzspAllowAppKeyRequests),
            0x62 => Some(EzspDecisionId::EzspPacketValidateLibraryChecksEnabled),
            0x63 => Some(EzspDecisionId::EzspPacketValidateLibraryChecksDisabled),
            _ => None,
        }
    }

    /// The byte written for the value, as `spec_id` says.
    pub fn id(&self) -> (r: u8)
        ensures
            r == self.spec_id(),
    {
        match self {
            EzspDecisionId::EzspAllowJoins => 0x00,
            EzspDecisionId::EzspAllowPreconfiguredKeyJoins => 0x01,
            EzspDecisionId::EzspAllowRejoinsOnly => 0x02,
            EzspDecisionId::EzspDisallowAllJoinsAndRejoins => 0x03,
            EzspDecisionId::EzspAllowJoinsRejoinsHaveLinkKey => 0x04,
            EzspDecisionId::EzspIgnoreTrustCenterRejoins => 0x05,
            EzspDecisionId::EzspBdbJoinUsesInstallCodeKey => 0x06,
            EzspDecisionId::EzspDeferJoinsRejoinsHaveLinkKey => 0x07,
            EzspDecisionId::EzspDisallowBindingModification => 0x10,
            EzspDecisionId::EzspAllowBindingModification => 0x11,
            EzspDecisionId::EzspCheckBindingModificationsAreValidEndpointClusters => 0x12,
            EzspDecisionId::EzspHostWillNotSupplyReply => 0x20,
            EzspDecisionId::EzspHostWillSupplyReply => 0x21,
            EzspDecisionId::EzspPollHandlerIgnore => 0x30,
            EzspDecisionId::EzspPollHandlerCallback => 0x31,
            EzspDecisionId::EzspMessageTagOnlyInCallback => 0x40,
            EzspDecisionId::EzspMessageTagAndContentsInCallback => 0x41,
            EzspDecisionId::EzspDenyTcKeyRequests => 0x50,
            EzspDecisionId::EzspAllowTcKeyRequestsAndSendCurrentKey => 0x51,
            EzspDecisionId::EzspAllowTcKeyRequestAndGenerateNewKey => 0x52,
            EzspDecisionId::EzspDenyAppKeyRequests => 0x60,
            EzspDecisionId::EzspAllowAppKeyRequests => 0x61,
            EzspDecisionId::EzspPacketValidateLibraryChecksEnabled => 0x62,
            EzspDecisionId::EzspPacketValidateLibraryChecksDisabled => 0x63,
        }
    }

    /// The value a byte is read as, as `spec_of` says.
    pub fn of(x: u8) -> (r: Option<Self>)
        ensures
            r == Self::spec_of(x),
    {
        match x {
            0x00 => Some(EzspDecisionId::EzspAllowJoins),
            0x01 => Some(EzspDecisionId::EzspAllowPreconfiguredKeyJoins),
            0x02 => Some(EzspDecisionId::EzspAllowRejoinsOnly),
            0x03 => Some(EzspDecisionId::EzspDisallowAllJoinsAndRejoins),
            0x04 => Some(EzspDecisionId::EzspAllowJoinsRejoinsHaveLinkKey),
            0x05 => Some(EzspDecisionId::EzspIgnoreTrustCenterRejoins),
            0x06 => Some(EzspDecisionId::EzspBdbJoinUsesInstallCodeKey),
            0x07 => Some(EzspDecisionId::EzspDeferJoinsRejoinsHaveLinkKey),
            0x10 => Some(EzspDecisionId::EzspDisallowBindingModification),
            0x11 => Some(EzspDecisionId::EzspAllowBindingModification),
            0x12 => Some(EzspDecisionId::EzspCheckBindingModificationsAreValidEndpointClusters),
            0x20 => Some(EzspDecisionId::EzspHostWillNotSupplyReply),
            0x21 => Some(EzspDecisionId::EzspHostWillSupplyReply),
            0x30 => Some(EzspDecisionId::EzspPollHandlerIgnore),
            0x31 => Some(EzspDecisionId::EzspPollHandlerCallback),
            0x40 => Some(EzspDecisionId::EzspMessageTagOnlyInCallback),
            0x41 => Some(EzspDecisionId::EzspMessageTagAndContentsInCallback),
            0x50 => Some(EzspDecisionId::EzspDenyTcKeyRequests),
            0x51 => Some(EzspDecisionId::EzspAllowTcKeyRequestsAndSendCurrentKey),
            0x52 => Some(EzspDecisionId::EzspAllowTcKeyRequestAndGenerateNewKey),
            0x60 => Some(EzspDecisionId::EzspDenyAppKeyRequests),
            0x61 => Some(EzspDecisionId::EzspAllowAppKeyRequests),
            0x62 => Some(EzspDecisionId::EzspPacketValidateLibraryChecksEnabled),
            0x63 => Some(EzspDecisionId::EzspPacketValidateLibraryChecksDisabled),
            _ => None,
        }
    }
}

/// How a device joins a network.
#[derive(Debug, Clone, Copy, PartialEq, Eq, Structural)]
pub enum EmberJoinMethod {
    /// Normally devices use MAC Association to join a network, which respects the "permit joining" flag in the MAC Beacon. This value should be used by default.
    EmberUseMacAssociation,
    /// For those networks where the "permit joining" flag is never turned on, they will need to use a ZigBee NWK Rejoin. This value causes the rejoin to be sent without NWK security and the Trust Center will be asked to send the NWK key to the device. The NWK key sent to the device can be encrypted with the device's corresponding Trust Center link key. That is determined by the ::EmberJoinDecision on the Trust Center returned by the ::emberTrustCenterJoinHandler().
    EmberUseNwkRejoin,
    /// For those networks where the "permit joining" flag is never turned on, they will need to use an NWK Rejoin. If those devices have been preconfigured with the NWK key (including sequence number) they can use a secured rejoin. This is only necessary for end devices since they need a parent. Routers can simply use the ::EMBER_USE_CONFIGURED_NWK_STATE join method below.
    EmberUseNwkRejoinHaveNwkKey,
    /// For those networks where all network and security information is known ahead of time, a router device may be commissioned such that it does not need to send any messages to begin communicating on the network.
    EmberUseConfiguredNwkState,
}

impl EmberJoinMethod {
    /// The byte written for the value.
    pub open spec fn spec_id(self) -> u8 {
        match self {
            EmberJoinMethod::EmberUseMacAssociation => 0x00,
            EmberJoinMethod::EmberUseNwkRejoin => 0x01,
            EmberJoinMethod::EmberUseNwkRejoinHaveNwkKey => 0x02,
            EmberJoinMethod::EmberUseConfiguredNwkState => 0x03,
        }
    }

    /// The value a byte is read as, if any.
    pub open spec fn spec_of(x: u8) -> Option<Self> {
        match x {
            0x00 => Some(EmberJoinMethod::EmberUseMacAssociation),
            0x01 => Some(EmberJoinMethod::EmberUseNwkRejoin),
            0x02 => Some(EmberJoinMethod::EmberUseNwkRejoinHaveNwkKey),
            0x03 => Some(EmberJoinMethod::EmberUseConfiguredNwkState),
            _ => None,
        }
    }

    /// The byte written for the value, as `spec_id` says.
    pub fn id(&self) -> (r: u8)
        ensures
            r == self.spec_id(),
    {
        match self {
            EmberJoinMethod::EmberUseMacAssociation => 0x00,
            EmberJoinMethod::EmberUseNwkRejoin => 0x01,
            EmberJoinMethod::EmberUseNwkRejoinHaveNwkKey => 0x02,
            EmberJoinMethod::EmberUseConfiguredNwkState => 0x03,
        }
    }

    /// The value a byte is read as, as `spec_of` says.
    pub fn of(x: u8) -> (r: Option<Self>)
        ensures
            r == Self::spec_of(x),
    {
        match x {
            0x00 => Some(EmberJoinMethod::EmberUseMacAssociation),
            0x01 => Some(EmberJoinMethod::EmberUseNwkRejoin),
            0x02 => Some(EmberJoinMethod::EmberUseNwkRejoinHaveNwkKey),
            0x03 => Some(EmberJoinMethod::EmberUseConfiguredNwkState),
            _ => None,
        }
    }
}

/// The roles of a node.
#[derive(Debug, Clone, Copy, PartialEq, Eq, Structural)]
pub enum EmberNodeType {
    /// Device is not joined.
    EmberUnknownDevice,
    /// Will relay messages and can act as a parent to other nodes.
    EmberCoordinator,
    /// Will relay messages and can act as a parent to other nodes.
    EmberRouter,
    /// Communicates only with its parent and will not relay messages.
    EmberEndDevice,
    /// An end device whose radio can be turned off to save power. The application must poll to receive messages.
    EmberSleepyEndDevice,
}

impl EmberNodeType {
    /// The byte written for the value.
    pub open spec fn spec_id(self) -> u8 {
        match self {
            EmberNodeType::EmberUnknownDevice => 0x00,
            EmberNodeType::EmberCoordinator => 0x01,
            EmberNodeType::EmberRouter => 0x02,
            EmberNodeType::EmberEndDevice => 0x03,
            EmberNodeType::EmberSleepyEndDevice => 0x04,
        }
    }

    /// The value a byte is read as, if any.
    pub open spec fn spec_of(x: u8) -> Option<Self> {
        match x {
            0x00 => Some(EmberNodeType::EmberUnknownDevice),
            0x01 => Some(EmberNodeType::EmberCoordinator),
            0x02 => Some(EmberNodeType::EmberRouter),
            0x03 => Some(EmberNodeType::EmberEndDevice),
            0x04 => Some(EmberNodeType::EmberSleepyEndDevice),
            _ => None,
        }
    }

    /// The byte written for the value, as `spec_id` says.
    pub fn id(&self) -> (r: u8)
        ensures
            r == self.spec_id(),
    {
        match self {
            EmberNodeType::EmberUnknownDevice => 0x00,
            EmberNodeType::EmberCoordinator => 0x01,
            EmberNodeType::EmberRouter => 0x02,
            EmberNodeType::EmberEndDevice => 0x03,
            EmberNodeType::EmberSleepyEndDevice => 0x04,
        }
    }

    /// The value a byte is read as, as `spec_of` says.
    pub fn of(x: u8) -> (r: Option<Self>)
        ensures
            r == Self::spec_of(x),
    {
        match x {
            0x00 => Some(EmberNodeType::EmberUnknownDevice),
            0x01 => Some(EmberNodeType::EmberCoordinator),
            0x02 => Some(EmberNodeType::EmberRouter),
            0x03 => Some(EmberNodeType::EmberEndDevice),
            0x04 => Some(EmberNodeType::EmberSleepyEndDevice),
            _ => None,
        }
    }
}

/// The values of the network co-processor.
#[derive(Debug, Clone, Copy, PartialEq, Eq, Structural)]
pub enum EzspValueId {
    /// The contents of the node data stack token.
    EzspValueTokenStackNodeData,
    /// The types of MAC passthrough messages that the host wishes to receive.
    EzspValueMacPassthroughFlags,
    /// The source address used to filter legacy EmberNet messages when the EMBER_MAC_PASSTHROUGH_EMBERNET_SOURCE flag is set in EZSP_VALUE_MAC_PASSTHROUGH_FLAGS.
    EzspValueEmbernetPassthroughSourceAddress,
    /// The number of available internal RAM general purpose buffers. Read only.
    EzspValueFreeBuffers,
    /// Selects sending synchronous callbacks in ezsp-uart.
    EzspValueUartSynchCallbacks,
    /// The maximum incoming transfer size for the local node. Default value is set to 82 and does not use fragmentation. Sets the value in Node Descriptor. To set, this takes the input of a uint8 array of length 2 where you pass the lower byte at index 0 and upper byte at index 1.
    EzspValueMaximumIncomingTransferSize,
    /// The maximum outgoing transfer size for the local node. Default value is set to 82 and does not use fragmentation. Sets the value in Node Descriptor. To set, this takes the input of a uint8 array of length 2 where you pass the lower byte at index 0 and upper byte at index 1.
    EzspValueMaximumOutgoingTransferSize,
    /// A bool indicating whether stack tokens are written to persistent storage as they change.
    EzspValueStackTokenWriting,
    /// A read-only value indicating whether the stack is currently performing a rejoin.
    EzspValueStackIsPerformingRejoin,
    /// A list of EmberMacFilterMatchData values.
    EzspValueMacFilterList,
    /// The Ember Extended Security Bitmask.
    EzspValueExtendedSecurityBitmask,
    /// The node short ID.
    EzspValueNodeShortId,
    /// The descriptor capability of the local node. Write only.
    EzspValueDescriptorCapability,
    /// The stack device request sequence number of the local node.
    EzspValueStackDeviceRequestSequenceNumber,
    /// Enable or disable radio hold-off.
    EzspValueRadioHoldOff,
    /// The flags field associated with the endpoint data.
    EzspValueEndpointFlags,
    /// Enable/disable the Mfg security config key settings.
    EzspValueMfgSecurityConfig,
    /// Retrieves the version information from the stack on the NCP.
    EzspValueVersionInfo,
    /// This will get/set the rejoin reason noted by the host for a subsequent call to emberFindAndRejoinNetwork(). After a call to emberFindAndRejoinNetwork() the host's rejoin reason will be set to EMBER_REJOIN_REASON_NONE. The NCP will store the rejoin reason used by the call to emberFindAndRejoinNetwork().Application is not required to do anything with this value. The App Framework sets this for cases of emberFindAndRejoinNetwork that it initiates, but if the app is invoking a rejoin directly, it should/can set this value to aid in debugging of any rejoin state machine issues over EZSP logs after the fact. The NCP doesn't do anything with this value other than cache it so you can read it later.
    EzspValueNextHostRejoinReason,
    /// This is the reason that the last rejoin took place. This value may only be retrieved, not set. The rejoin may have been initiated by the stack (NCP) or the application (host). If a host initiated a rejoin the reason will be set by default to EMBER_REJOIN_DUE_TO_APP_EVENT_1. If the application wishes to denote its own rejoin reasons it can do so by calling ezspSetValue(EMBER_VALUE_HOST_REJOIN_REASON, EMBER_REJOIN_DUE_TO_APP_EVENT_X). X is a number corresponding to one of the app events defined. If the NCP initiated a rejoin it will record this value internally for retrieval by ezspGetValue(EZSP_VALUE_REAL_REJOIN_REASON).
    EzspValueLastRejoinReason,
    /// The next ZigBee sequence number.
    EzspValueNextZigbeeSequenceNumber,
    /// CCA energy detect threshold for radio.
    EzspValueCcaThreshold,
    /// The threshold value for a counter
    EzspValueSetCounterThreshold,
    /// Resets all counters thresholds to 0xFF
    EzspValueResetCounterThresholds,
    /// Clears all the counters
    EzspValueClearCounters,
    /// The node's new certificate signed by the CA.
    EzspValueCertificate283K1,
    /// The Certificate Authority's public key.
    EzspValuePublicKey283K1,
    /// The node's new static private key.
    EzspValuePrivateKey283K1,
    /// The NWK layer security frame counter value
    EzspValueNwkFrameCounter,
    /// The APS layer security frame counter value. Managed by the stack. Users should not set these unless doing backup and restore.
    EzspValueApsFrameCounter,
    /// Sets the device type to use on the next rejoin using device type
    EzspValueRetryDeviceType,
    /// Setting this byte enables R21 behavior on the NCP.
    EzspValueEnableR21Behavior,
    /// Configure the antenna mode(0-don't switch,1-primary,2-secondary,3-TX antenna diversity).
    EzspValueAntennaMode,
    /// Enable or disable packet traffic arbitration.
    EzspValueEnablePta,
    /// Set packet traffic arbitration configuration options.
    EzspValuePtaOptions,
    /// Configure manufacturing library options (0-non-CSMA transmits,1-CSMA transmits). To be used with Manufacturing library.
    EzspValueMfglibOptions,
    /// Sets the flag to use either negotiated power by link power delta (LPD) or fixed power value provided by user while forming/joining a network for packet transmissions on sub-ghz interface. This is mainly for testing purposes.
    EzspValueUseNegotiatedPowerByLpd,
    /// Set packet traffic arbitration PWM options.
    EzspValuePtaPwmOptions,
    /// Set packet traffic arbitration directional priority pulse width in microseconds.
    EzspValuePtaDirectionalPriorityPulseWidth,
    /// Set packet traffic arbitration phy select timeout(ms).
    EzspValuePtaPhySelectTimeout,
    /// Configure the RX antenna mode: (0-do not switch; 1-primary; 2-secondary; 3-RX antenna diversity).
    EzspValueAntennaRxMode,
    /// Configure the timeout to wait for the network key before failing a join. Acceptable timeout range [3,255]. Value is in seconds.
    EzspValueNwkKeyTimeout,
    /// The number of failed CSMA attempts due to failed CCA made by the MAC before continuing transmission with CCA disabled. This is the same as calling the emberForceTxAfterFailedCca(uint8_t csmaAttempts) API. A value of 0 disables the feature.
    EzspValueForceTxAfterFailedCcaAttempts,
    /// The length of time, in seconds, that a trust center will store a transient link key that a device can use to join its network. A transient key is added with a call to sl_zb_sec_man_import_transient_key. After the transient key is added, it will be removed once this amount of time has passed. A joining device will not be able to use that key to join until it is added again on the trust center. The default value is 300 seconds (5 minutes).
    EzspValueTransientKeyTimeoutS,
    /// Cumulative energy usage metric since the last value reset of the coulomb counter plugin. Setting this value will reset the coulomb counter.
    EzspValueCoulombCounterUsage,
    /// When scanning, configure the maximum number of beacons to store in cache. Each beacon consumes one packet buffer in RAM.
    EzspValueMaxBeaconsToStore,
    /// Set the mask to filter out unacceptable child timeout options on a router.
    EzspValueEndDeviceTimeoutOptionsMask,
    /// The end device keep-alive mode supported by the parent.
    EzspValueEndDeviceKeepAliveSupportMode,
    /// Return the active radio config. Read only. Values are 0: Default, 1: Antenna Diversity, 2: Co-Existence, 3: Antenna diversity and Co-Existence.
    EzspValueActiveRadioConfig,
    /// Return the number of seconds the network will remain open. A return value of 0 indicates that the network is closed. Read only.
    EzspValueNwkOpenDuration,
    /// Timeout in milliseconds to store entries in the transient device table. If the devices are not authenticated before the timeout, the entry shall be purged
    EzspValueTransientDeviceTimeout,
    /// Return information about the key storage on an NCP. Returns 0 if keys are in classic key storage, and 1 if they are located in PSA key storage. Read only.
    EzspValueKeyStorageVersion,
    /// Return activation state about TC Delayed Join on an NCP. A return value of 0 indicates that the feature is not activated.
    EzspValueDelayedJoinActivation,
}

impl EzspValueId {
    /// The byte written for the value.
    pub open spec fn spec_id(self) -> u8 {
        match self {
            EzspValueId::EzspValueTokenStackNodeData => 0x00,
            EzspValueId::EzspValueMacPassthroughFlags => 0x01,
            EzspValueId::EzspValueEmbernetPassthroughSourceAddress => 0x02,
            EzspValueId::EzspValueFreeBuffers => 0x03,
            EzspValueId::EzspValueUartSynchCallbacks => 0x04,
            EzspValueId::EzspValueMaximumIncomingTransferSize => 0x05,
            EzspValueId::EzspValueMaximumOutgoingTransferSize => 0x06,
            EzspValueId::EzspValueStackTokenWriting => 0x07,
            EzspValueId::EzspValueStackIsPerformingRejoin => 0x08,
            EzspValueId::EzspValueMacFilterList => 0x09,
            EzspValueId::EzspValueExtendedSecurityBitmask => 0x0a,
            EzspValueId::EzspValueNodeShortId => 0x0b,
            EzspValueId::EzspValueDescriptorCapability => 0x0c,
            EzspValueId::EzspValueStackDeviceRequestSequenceNumber => 0x0d,
            EzspValueId::EzspValueRadioHoldOff => 0x0e,
            EzspValueId::EzspValueEndpointFlags => 0x0f,
            EzspValueId::EzspValueMfgSecurityConfig => 0x10,
            EzspValueId::EzspValueVersionInfo => 0x11,
            EzspValueId::EzspValueNextHostRejoinReason => 0x12,
            EzspValueId::EzspValueLastRejoinReason => 0x13,
            EzspValueId::EzspValueNextZigbeeSequenceNumber => 0x14,
            EzspValueId::EzspValueCcaThreshold => 0x15,
            EzspValueId::EzspValueSetCounterThreshold => 0x17,
            EzspValueId::EzspValueResetCounterThresholds => 0x18,
            EzspValueId::EzspValueClearCounters => 0x19,
            EzspValueId::EzspValueCertificate283K1 => 0x1a,
            EzspValueId::EzspValuePublicKey283K1 => 0x1b,
            EzspValueId::EzspValuePrivateKey283K1 => 0x1c,
            EzspValueId::EzspValueNwkFrameCounter => 0x23,
            EzspValueId::EzspValueApsFrameCounter => 0x24,
            EzspValueId::EzspValueRetryDeviceType => 0x25,
            EzspValueId::EzspValueEnableR21Behavior => 0x29,
            EzspValueId::EzspValueAntennaMode => 0x30,
            EzspValueId::EzspValueEnablePta => 0x31,
            EzspValueId::EzspValuePtaOptions => 0x32,
            EzspValueId::EzspValueMfglibOptions => 0x33,
            EzspValueId::EzspValueUseNegotiatedPowerByLpd => 0x34,
            EzspValueId::EzspValuePtaPwmOptions => 0x35,
            EzspValueId::EzspValuePtaDirectionalPriorityPulseWidth => 0x36,
            EzspValueId::EzspValuePtaPhySelectTimeout => 0x37,
            EzspValueId::EzspValueAntennaRxMode => 0x38,
            EzspValueId::EzspValueNwkKeyTimeout => 0x39,
            EzspValueId::EzspValueForceTxAfterFailedCcaAttempts => 0x3a,
            EzspValueId::EzspValueTransientKeyTimeoutS => 0x3b,
            EzspValueId::EzspValueCoulombCounterUsage => 0x3c,
            EzspValueId::EzspValueMaxBeaconsToStore => 0x3d,
            EzspValueId::EzspValueEndDeviceTimeoutOptionsMask => 0x3e,
            EzspValueId::EzspValueEndDeviceKeepAliveSupportMode => 0x3f,
            EzspValueId::EzspValueActiveRadioConfig => 0x41,
            EzspValueId::EzspValueNwkOpenDuration => 0x42,
            EzspValueId::EzspValueTransientDeviceTimeout => 0x43,
            EzspValueId::EzspValueKeyStorageVersion => 0x44,
            EzspValueId::EzspValueDelayedJoinActivation => 0x45,
        }
    }

    /// The value a byte is read as, if any.
    pub open spec fn spec_of(x: u8) -> Option<Self> {
        match x {
            0x00 => Some(EzspValueId::EzspValueTokenStackNodeData),
            0x01 => Some(EzspValueId::EzspValueMacPassthroughFlags),
            0x02 => Some(EzspValueId::EzspValueEmbernetPassthroughSourceAddress),
            0x03 => Some(EzspValueId::EzspValueFreeBuffers),
            0x04 => Some(EzspValueId::EzspValueUartSynchCallbacks),
            0x05 => Some(EzspValueId::EzspValueMaximumIncomingTransferSize),
            0x06 => Some(EzspValueId::EzspValueMaximumOutgoingTransferSize),
            0x07 => Some(EzspValueId::EzspValueStackTokenWriting),
            0x08 => Some(EzspValueId::EzspValueStackIsPerformingRejoin),
            0x09 => Some(EzspValueId::EzspValueMacFilterList),
            0x0a => Some(EzspValueId::EzspValueExtendedSecurityBitmask),
            0x0b => Some(EzspValueId::EzspValueNodeShortId),
            0x0c => Some(EzspValueId::EzspValueDescriptorCapability),
            0x0d => Some(EzspValueId::EzspValueStackDeviceRequestSequenceNumber),
            0x0e => Some(EzspValueId::EzspValueRadioHoldOff),
            0x0f => Some(EzspValueId::EzspValueEndpointFlags),
            0x10 => Some(EzspValueId::EzspValueMfgSecurityConfig),
            0x11 => Some(EzspValueId::EzspValueVersionInfo),
            0x12 => Some(EzspValueId::EzspValueNextHostRejoinReason),
            0x13 => Some(EzspValueId::EzspValueLastRejoinReason),
            0x14 => Some(EzspValueId::EzspValueNextZigbeeSequenceNumber),
            0x15 => Some(EzspValueId::EzspValueCcaThreshold),
            0x17 => Some(EzspValueId::EzspValueSetCounterThreshold),
            0x18 => Some(EzspValueId::EzspValueResetCounterThresholds),
            0x19 => Some(EzspValueId::EzspValueClearCounters),
            0x1a => Some(EzspValueId::EzspValueCertificate283K1),
            0x1b => Some(EzspValueId::EzspValuePublicKey283K1),
            0x1c => Some(EzspValueId::EzspValuePrivateKey283K1),
            0x23 => Some(EzspValueId::EzspValueNwkFrameCounter),
            0x24 => Some(EzspValueId::EzspValueApsFrameCounter),
            0x25 => Some(EzspValueId::EzspValueRetryDeviceType),
            0x29 => Some(EzspValueId::EzspValueEnableR21Behavior),
            0x30 => Some(EzspValueId::EzspValueAntennaMode),
            0x31 => Some(EzspValueId::EzspValueEnablePta),
            0x32 => Some(EzspValueId::EzspValuePtaOptions),
            0x33 => Some(EzspValueId::EzspValueMfglibOptions),
            0x34 => Some(EzspValueId::EzspValueUseNegotiatedPowerByLpd),
            0x35 => Some(EzspValueId::EzspValuePtaPwmOptions),
            0x36 => Some(EzspValueId::EzspValuePtaDirectionalPriorityPulseWidth),
            0x37 => Some(EzspValueId::EzspValuePtaPhySelectTimeout),
            0x38 => Some(EzspValueId::EzspValueAntennaRxMode),
            0x39 => Some(EzspValueId::EzspValueNwkKeyTimeout),
            0x3a => Some(EzspValueId::EzspValueForceTxAfterFailedCcaAttempts),
            0x3b => Some(EzspValueId::EzspValueTransientKeyTimeoutS),
            0x3c => Some(EzspValueId::EzspValueCoulombCounterUsage),
            0x3d => Some(EzspValueId::EzspValueMaxBeaconsToStore),
            0x3e => Some(EzspValueId::EzspValueEndDeviceTimeoutOptionsMask),
            0x3f => Some(EzspValueId::EzspValueEndDeviceKeepAliveSupportMode),
            0x41 => Some(EzspValueId::EzspValueActiveRadioConfig),
            0x42 => Some(EzspValueId::EzspValueNwkOpenDuration),
            0x43 => Some(EzspValueId::EzspValueTransientDeviceTimeout),
            0x44 => Some(EzspValueId::EzspValueKeyStorageVersion),
            0x45 => Some(EzspValueId::EzspValueDelayedJoinActivation),
            _ => None,
        }
    }

    /// The byte written for the value, as `spec_id` says.
    pub fn id(&self) -> (r: u8)
        ensures
            r == self.spec_id(),
    {
        match self {
            EzspValueId::EzspValueTokenStackNodeData => 0x00,
            EzspValueId::EzspValueMacPassthroughFlags => 0x01,
            EzspValueId::EzspValueEmbernetPassthroughSourceAddress => 0x02,
            EzspValueId::EzspValueFreeBuffers => 0x03,
            EzspValueId::EzspValueUartSynchCallbacks => 0x04,
            EzspValueId::EzspValueMaximumIncomingTransferSize => 0x05,
            EzspValueId::EzspValueMaximumOutgoingTransferSize => 0x06,
            EzspValueId::EzspValueStackTokenWriting => 0x07,
            EzspValueId::EzspValueStackIsPerformingRejoin => 0x08,
            EzspValueId::EzspValueMacFilterList => 0x09,
            EzspValueId::EzspValueExtendedSecurityBitmask => 0x0a,
            EzspValueId::EzspValueNodeShortId => 0x0b,
            EzspValueId::EzspValueDescriptorCapability => 0x0c,
            EzspValueId::EzspValueStackDeviceRequestSequenceNumber => 0x0d,
            EzspValueId::EzspValueRadioHoldOff => 0x0e,
            EzspValueId::EzspValueEndpointFlags => 0x0f,
            EzspValueId::EzspValueMfgSecurityConfig => 0x10,
            EzspValueId::EzspValueVersionInfo => 0x11,
            EzspValueId::EzspValueNextHostRejoinReason => 0x12,
            EzspValueId::EzspValueLastRejoinReason => 0x13,
            EzspValueId::EzspValueNextZigbeeSequenceNumber => 0x14,
            EzspValueId::EzspValueCcaThreshold => 0x15,
            EzspValueId::EzspValueSetCounterThreshold => 0x17,
            EzspValueId::EzspValueResetCounterThresholds => 0x18,
            EzspValueId::EzspValueClearCounters => 0x19,
            EzspValueId::EzspValueCertificate283K1 => 0x1a,
            EzspValueId::EzspValuePublicKey283K1 => 0x1b,
            EzspValueId::EzspValuePrivateKey283K1 => 0x1c,
            EzspValueId::EzspValueNwkFrameCounter => 0x23,
            EzspValueId::EzspValueApsFrameCounter => 0x24,
            EzspValueId::EzspValueRetryDeviceType => 0x25,
            EzspValueId::EzspValueEnableR21Behavior => 0x29,
            EzspValueId::EzspValueAntennaMode => 0x30,
            EzspValueId::EzspValueEnablePta => 0x31,
            EzspValueId::EzspValuePtaOptions => 0x32,
            EzspValueId::EzspValueMfglibOptions => 0x33,
            EzspValueId::EzspValueUseNegotiatedPowerByLpd => 0x34,
            EzspValueId::EzspValuePtaPwmOptions => 0x35,
            EzspValueId::EzspValuePtaDirectionalPriorityPulseWidth => 0x36,
            EzspValueId::EzspValuePtaPhySelectTimeout => 0x37,
            EzspValueId::EzspValueAntennaRxMode => 0x38,
            EzspValueId::EzspValueNwkKeyTimeout => 0x39,
            EzspValueId::EzspValueForceTxAfterFailedCcaAttempts => 0x3a,
            EzspValueId::EzspValueTransientKeyTimeoutS => 0x3b,
            EzspValueId::EzspValueCoulombCounterUsage => 0x3c,
            EzspValueId::EzspValueMaxBeaconsToStore => 0x3d,
            EzspValueId::EzspValueEndDeviceTimeoutOptionsMask => 0x3e,
            EzspValueId::EzspValueEndDeviceKeepAliveSupportMode => 0x3f,
            EzspValueId::EzspValueActiveRadioConfig => 0x41,
            EzspValueId::EzspValueNwkOpenDuration => 0x42,
            EzspValueId::EzspValueTransientDeviceTimeout => 0x43,
            EzspValueId::EzspValueKeyStorageVersion => 0x44,
            EzspValueId::EzspValueDelayedJoinActivation => 0x45,
        }
    }

    /// The value a byte is read as, as `spec_of` says.
    pub fn of(x: u8) -> (r: Option<Self>)
        ensures
            r == Self::spec_of(x),
    {
        match x {
            0x00 => Some(EzspValueId::EzspValueTokenStackNodeData),
            0x01 => Some(EzspValueId::EzspValueMacPassthroughFlags),
            0x02 => Some(EzspValueId::EzspValueEmbernetPassthroughSourceAddress),
            0x03 => Some(EzspValueId::EzspValueFreeBuffers),
            0x04 => Some(EzspValueId::EzspValueUartSynchCallbacks),
            0x05 => Some(EzspValueId::EzspValueMaximumIncomingTransferSize),
            0x06 => Some(EzspValueId::EzspValueMaximumOutgoingTransferSize),
            0x07 => Some(EzspValueId::EzspValueStackTokenWriting),
            0x08 => Some(EzspValueId::EzspValueStackIsPerformingRejoin),
            0x09 => Some(EzspValueId::EzspValueMacFilterList),
            0x0a => Some(EzspValueId::EzspValueExtendedSecurityBitmask),
            0x0b => Some(EzspValueId::EzspValueNodeShortId),
            0x0c => Some(EzspValueId::EzspValueDescriptorCapability),
            0x0d => Some(EzspValueId::EzspValueStackDeviceRequestSequenceNumber),
            0x0e => Some(EzspValueId::EzspValueRadioHoldOff),
            0x0f => Some(EzspValueId::EzspValueEndpointFlags),
            0x10 => Some(EzspValueId::EzspValueMfgSecurityConfig),
            0x11 => Some(EzspValueId::EzspValueVersionInfo),
            0x12 => Some(EzspValueId::EzspValueNextHostRejoinReason),
            0x13 => Some(EzspValueId::EzspValueLastRejoinReason),
            0x14 => Some(EzspValueId::EzspValueNextZigbeeSequenceNumber),
            0x15 => Some(EzspValueId::EzspValueCcaThreshold),
            0x17 => Some(EzspValueId::EzspValueSetCounterThreshold),
            0x18 => Some(EzspValueId::EzspValueResetCounterThresholds),
            0x19 => Some(EzspValueId::EzspValueClearCounters),
            0x1a => Some(EzspValueId::EzspValueCertificate283K1),
            0x1b => Some(EzspValueId::EzspValuePublicKey283K1),
            0x1c => Some(EzspValueId::EzspValuePrivateKey283K1),
            0x23 => Some(EzspValueId::EzspValueNwkFrameCounter),
            0x24 => Some(EzspValueId::EzspValueApsFrameCounter),
            0x25 => Some(EzspValueId::EzspValueRetryDeviceType),
            0x29 => Some(EzspValueId::EzspValueEnableR21Behavior),
            0x30 => Some(EzspValueId::EzspValueAntennaMode),
            0x31 => Some(EzspValueId::EzspValueEnablePta),
            0x32 => Some(EzspValueId::EzspValuePtaOptions),
            0x33 => Some(EzspValueId::EzspValueMfglibOptions),
            0x34 => Some(EzspValueId::EzspValueUseNegotiatedPowerByLpd),
            0x35 => Some(EzspValueId::EzspValuePtaPwmOptions),
            0x36 => Some(EzspValueId::EzspValuePtaDirectionalPriorityPulseWidth),
            0x37 => Some(EzspValueId::EzspValuePtaPhySelectTimeout),
            0x38 => Some(EzspValueId::EzspValueAntennaRxMode),
            0x39 => Some(EzspValueId::EzspValueNwkKeyTimeout),
            0x3a => Some(EzspValueId::EzspValueForceTxAfterFailedCcaAttempts),
            0x3b => Some(EzspValueId::EzspValueTransientKeyTimeoutS),
            0x3c => Some(EzspValueId::EzspValueCoulombCounterUsage),
            0x3d => Some(EzspValueId::EzspValueMaxBeaconsToStore),
            0x3e => Some(EzspValueId::EzspValueEndDeviceTimeoutOptionsMask),
            0x3f => Some(EzspValueId::EzspValueEndDeviceKeepAliveSupportMode),
            0x41 => Some(EzspValueId::EzspValueActiveRadioConfig),
            0x42 => Some(EzspValueId::EzspValueNwkOpenDuration),
            0x43 => Some(EzspValueId::EzspValueTransientDeviceTimeout),
            0x44 => Some(EzspValueId::EzspValueKeyStorageVersion),
            0x45 => Some(EzspValueId::EzspValueDelayedJoinActivation),
            _ => None,
        }
    }
}

/// A boolean byte: 0 or 1.
#[derive(Debug, Clone, Copy, PartialEq, Eq, Structural)]
pub enum Bool {
    False,
    True,
}

impl Bool {
    /// The byte written for the value.
    pub open spec fn spec_id(self) -> u8 {
        match self {
            Bool::False => 0x00,
            Bool::True => 0x01,
        }
    }

    /// The value a byte is read as, if any.
    pub open spec fn spec_of(x: u8) -> Option<Self> {
        match x {
            0x00 => Some(Bool::False),
            0x01 => Some(Bool::True),
            _ => None,
        }
    }

    /// The byte written for the value, as `spec_id` says.
    pub fn id(&self) -> (r: u8)
        ensures
            r == self.spec_id(),
    {
        match self {
            Bool::False => 0x00,
            Bool::True => 0x01,
        }
    }

    /// The value a byte is read as, as `spec_of` says.
    pub fn of(x: u8) -> (r: Option<Self>)
        ensures
            r == Self::spec_of(x),
    {
        match x {
            0x00 => Some(Bool::False),
            0x01 => Some(Bool::True),
            _ => None,
        }
    }
}

/// The kinds of incoming messages.
#[derive(Debug, Clone, Copy, PartialEq, Eq, Structural)]
pub enum EmberIncomingMessageType {
    /// Unicast.
    EmberIncomingUnicast,
    /// Unicast reply.
    EmberIncomingUnicastReply,
    /// Multicast.
    EmberIncomingMulticast,
    /// Multicast sent by the local device.
    EmberIncomingMulticastLoopback,
    /// Broadcast.
    EmberIncomingBroadcast,
    /// Broadcast sent by the local device.
    EmberIncomingBroadcastLoopback,
    /// Many to one route request.
    EmberIncomingManyToOneRouteRequest,
}

impl EmberIncomingMessageType {
    /// The byte written for the value.
    pub open spec fn spec_id(self) -> u8 {
        match self {
            EmberIncomingMessageType::EmberIncomingUnicast => 0x00,
            EmberIncomingMessageType::EmberIncomingUnicastReply => 0x01,
            EmberIncomingMessageType::EmberIncomingMulticast => 0x02,
            EmberIncomingMessageType::EmberIncomingMulticastLoopback => 0x03,
            EmberIncomingMessageType::EmberIncomingBroadcast => 0x04,
            EmberIncomingMessageType::EmberIncomingBroadcastLoopback => 0x05,
            EmberIncomingMessageType::EmberIncomingManyToOneRouteRequest => 0x06,
        }
    }

    /// The value a byte is read as, if any.
    pub open spec fn spec_of(x: u8) -> Option<Self> {
        match x {
            0x00 => Some(EmberIncomingMessageType::EmberIncomingUnicast),
            0x01 => Some(EmberIncomingMessageType::EmberIncomingUnicastReply),
            0x02 => Some(EmberIncomingMessageType::EmberIncomingMulticast),
            0x03 => Some(EmberIncomingMessageType::EmberIncomingMulticastLoopback),
            0x04 => Some(EmberIncomingMessageType::EmberIncomingBroadcast),
            0x05 => Some(EmberIncomingMessageType::EmberIncomingBroadcastLoopback),
            0x06 => Some(EmberIncomingMessageType::EmberIncomingManyToOneRouteRequest),
            _ => None,
        }
    }

    /// The byte written for the value, as `spec_id` says.
    pub fn id(&self) -> (r: u8)
        ensures
            r == self.spec_id(),
    {
        match self {
            EmberIncomingMessageType::EmberIncomingUnicast => 0x00,
            EmberIncomingMessageType::EmberIncomingUnicastReply => 0x01,
            EmberIncomingMessageType::EmberIncomingMulticast => 0x02,
            EmberIncomingMessageType::EmberIncomingMulticastLoopback => 0x03,
            EmberIncomingMessageType::EmberIncomingBroadcast => 0x04,
            EmberIncomingMessageType::EmberIncomingBroadcastLoopback => 0x05,
            EmberIncomingMessageType::EmberIncomingManyToOneRouteRequest => 0x06,
        }
    }

    /// The value a byte is read as, as `spec_of` says.
    pub fn of(x: u8) -> (r: Option<Self>)
        ensures
            r == Self::spec_of(x),
    {
        match x {
            0x00 => Some(EmberIncomingMessageType::EmberIncomingUnicast),
            0x01 => Some(EmberIncomingMessageType::EmberIncomingUnicastReply),
            0x02 => Some(EmberIncomingMessageType::EmberIncomingMulticast),
            0x03 => Some(EmberIncomingMessageType::EmberIncomingMulticastLoopback),
            0x04 => Some(EmberIncomingMessageType::EmberIncomingBroadcast),
            0x05 => Some(EmberIncomingMessageType::EmberIncomingBroadcastLoopback),
            0x06 => Some(EmberIncomingMessageType::EmberIncomingManyToOneRouteRequest),
            _ => None,
        }
    }
}

/// The kinds of outgoing messages; any other byte is kept as it is.
#[derive(Debug, Clone, Copy, PartialEq, Eq, Structural)]
pub enum EmberOutgoingMessageType {
    /// Unicast sent directly to an EmberNodeId.
    EmberOutgoingDirect,
    /// Unicast sent using an entry in the address table.
    EmberOutgoingViaAddressTable,
    /// Unicast sent using an entry in the binding table.
    EmberOutgoingViaBinding,
    /// Multicast message. This value is passed to emberMessageSentHandler() only. It may not be passed to emberSendUnicast().
    EmberOutgoingMulticast,
    /// Broadcast message. This value is passed to emberMessageSentHandler() only. It may not be passed to emberSendUnicast().
    EmberOutgoingBroadcast,
    Unknown(u8),
}

impl EmberOutgoingMessageType {
    /// The byte written for the value.
    pub open spec fn spec_id(self) -> u8 {
        match self {
            EmberOutgoingMessageType::EmberOutgoingDirect => 0x00,
            EmberOutgoingMessageType::EmberOutgoingViaAddressTable => 0x01,
            EmberOutgoingMessageType::EmberOutgoingViaBinding => 0x02,
            EmberOutgoingMessageType::EmberOutgoingMulticast => 0x03,
            EmberOutgoingMessageType::EmberOutgoingBroadcast => 0x04,
            EmberOutgoingMessageType::Unknown(x) => x,
        }
    }

    /// The value a byte is read as, if any.
    pub open spec fn spec_of(x: u8) -> Option<Self> {
        match x {
            0x00 => Some(EmberOutgoingMessageType::EmberOutgoingDirect),
            0x01 => Some(EmberOutgoingMessageType::EmberOutgoingViaAddressTable),
            0x02 => Some(EmberOutgoingMessageType::EmberOutgoingViaBinding),
            0x03 => Some(EmberOutgoingMessageType::EmberOutgoingMulticast),
            0x04 => Some(EmberOutgoingMessageType::EmberOutgoingBroadcast),
            _ => Some(EmberOutgoingMessageType::Unknown(x)),
        }
    }

    /// The byte written for the value, as `spec_id` says.
    pub fn id(&self) -> (r: u8)
        ensures
            r == self.spec_id(),
    {
        match self {
            EmberOutgoingMessageType::EmberOutgoingDirect => 0x00,
            EmberOutgoingMessageType::EmberOutgoingViaAddressTable => 0x01,
            EmberOutgoingMessageType::EmberOutgoingViaBinding => 0x02,
            EmberOutgoingMessageType::EmberOutgoingMulticast => 0x03,
            EmberOutgoingMessageType::EmberOutgoingBroadcast => 0x04,
            EmberOutgoingMessageType::Unknown(x) => *x,
        }
    }

    /// The value a byte is read as, as `spec_of` says.
    pub fn of(x: u8) -> (r: Option<Self>)
        ensures
            r == Self::spec_of(x),
    {
        match x {
            0x00 => Some(EmberOutgoingMessageType::EmberOutgoingDirect),
            0x01 => Some(EmberOutgoingMessageType::EmberOutgoingViaAddressTable),
            0x02 => Some(EmberOutgoingMessageType::EmberOutgoingViaBinding),
            0x03 => Some(EmberOutgoingMessageType::EmberOutgoingMulticast),
            0x04 => Some(EmberOutgoingMessageType::EmberOutgoingBroadcast),
            _ => Some(EmberOutgoingMessageType::Unknown(x)),
        }
    }
}

/// The outcomes of a key establishment.
#[derive(Debug, Clone, Copy, PartialEq, Eq, Structural)]
pub enum EmberKeyStatus {
    EmberAppLinkKeyEstablished,
    EmberTrustCenterLinkKeyEstablished,
    EmberKeyEstablishmentTimeout,
    EmberKeyTableFull,
    EmberTcRespondedToKeyRequest,
    EmberTcAppKeySentToRequester,
    EmberTcResponseToKeyRequestFailed,
    EmberTcRequestKeyTypeNotSupported,
    EmberTcNoLinkKeyForRequester,
    EmberTcRequesterEui64Unknown,
    EmberTcReceivedFirstAppKeyRequest,
    EmberTcTimeoutWaitingForSecondAppKeyRequest,
    EmberTcNonMatchingAppKeyRequestReceived,
    EmberTcFailedToSendAppKeys,
    EmberTcFailedToStoreAppKeyRequest,
    EmberTcRejectedAppKeyRequest,
}

impl EmberKeyStatus {
    /// The byte written for the value.
    pub open spec fn spec_id(self) -> u8 {
        match self {
            EmberKeyStatus::EmberAppLinkKeyEstablished => 0x01,
            EmberKeyStatus::EmberTrustCenterLinkKeyEstablished => 0x03,
            EmberKeyStatus::EmberKeyEstablishmentTimeout => 0x04,
            EmberKeyStatus::EmberKeyTableFull => 0x05,
            EmberKeyStatus::EmberTcRespondedToKeyRequest => 0x06,
            EmberKeyStatus::EmberTcAppKeySentToRequester => 0x07,
            EmberKeyStatus::EmberTcResponseToKeyRequestFailed => 0x08,
            EmberKeyStatus::EmberTcRequestKeyTypeNotSupported => 0x09,
            EmberKeyStatus::EmberTcNoLinkKeyForRequester => 0x0a,
            EmberKeyStatus::EmberTcRequesterEui64Unknown => 0x0b,
            EmberKeyStatus::EmberTcReceivedFirstAppKeyRequest => 0x0c,
            EmberKeyStatus::EmberTcTimeoutWaitingForSecondAppKeyRequest => 0x0d,
            EmberKeyStatus::EmberTcNonMatchingAppKeyRequestReceived => 0x0e,
            EmberKeyStatus::EmberTcFailedToSendAppKeys => 0x0f,
            EmberKeyStatus::EmberTcFailedToStoreAppKeyRequest => 0x10,
            EmberKeyStatus::EmberTcRejectedAppKeyRequest => 0x11,
        }
    }

    /// The value a byte is read as, if any.
    pub open spec fn spec_of(x: u8) -> Option<Self> {
        match x {
            0x01 => Some(EmberKeyStatus::EmberAppLinkKeyEstablished),
            0x03 => Some(EmberKeyStatus::EmberTrustCenterLinkKeyEstablished),
            0x04 => Some(EmberKeyStatus::EmberKeyEstablishmentTimeout),
            0x05 => Some(EmberKeyStatus::EmberKeyTableFull),
            0x06 => Some(EmberKeyStatus::EmberTcRespondedToKeyRequest),
            0x07 => Some(EmberKeyStatus::EmberTcAppKeySentToRequester),
            0x08 => Some(EmberKeyStatus::EmberTcResponseToKeyRequestFailed),
            0x09 => Some(EmberKeyStatus::EmberTcRequestKeyTypeNotSupported),
            0x0a => Some(EmberKeyStatus::EmberTcNoLinkKeyForRequester),
            0x0b => Some(EmberKeyStatus::EmberTcRequesterEui64Unknown),
            0x0c => Some(EmberKeyStatus::EmberTcReceivedFirstAppKeyRequest),
            0x0d => Some(EmberKeyStatus::EmberTcTimeoutWaitingForSecondAppKeyRequest),
            0x0e => Some(EmberKeyStatus::EmberTcNonMatchingAppKeyRequestReceived),
            0x0f => Some(EmberKeyStatus::EmberTcFailedToSendAppKeys),
            0x10 => Some(EmberKeyStatus::EmberTcFailedToStoreAppKeyRequest),
            0x11 => Some(EmberKeyStatus::EmberTcRejectedAppKeyRequest),
            _ => None,
        }
    }

    /// The byte written for the value, as `spec_id` says.
    pub fn id(&self) -> (r: u8)
        ensures
            r == self.spec_id(),
    {
        match self {
            EmberKeyStatus::EmberAppLinkKeyEstablished => 0x01,
            EmberKeyStatus::EmberTrustCenterLinkKeyEstablished => 0x03,
            EmberKeyStatus::EmberKeyEstablishmentTimeout => 0x04,
            EmberKeyStatus::EmberKeyTableFull => 0x05,
            EmberKeyStatus::EmberTcRespondedToKeyRequest => 0x06,
            EmberKeyStatus::EmberTcAppKeySentToRequester => 0x07,
            EmberKeyStatus::EmberTcResponseToKeyRequestFailed => 0x08,
            EmberKeyStatus::EmberTcRequestKeyTypeNotSupported => 0x09,
            EmberKeyStatus::EmberTcNoLinkKeyForRequester => 0x0a,
            EmberKeyStatus::EmberTcRequesterEui64Unknown => 0x0b,
            EmberKeyStatus::EmberTcReceivedFirstAppKeyRequest => 0x0c,
            EmberKeyStatus::EmberTcTimeoutWaitingForSecondAppKeyRequest => 0x0d,
            EmberKeyStatus::EmberTcNonMatchingAppKeyRequestReceived => 0x0e,
            EmberKeyStatus::EmberTcFailedToSendAppKeys => 0x0f,
            EmberKeyStatus::EmberTcFailedToStoreAppKeyRequest => 0x10,
            EmberKeyStatus::EmberTcRejectedAppKeyRequest => 0x11,
        }
    }

    /// The value a byte is read as, as `spec_of` says.
    pub fn of(x: u8) -> (r: Option<Self>)
        ensures
            r == Self::spec_of(x),
    {
        match x {
            0x01 => Some(EmberKeyStatus::EmberAppLinkKeyEstablished),
            0x03 => Some(EmberKeyStatus::EmberTrustCenterLinkKeyEstablished),
            0x04 => Some(EmberKeyStatus::EmberKeyEstablishmentTimeout),
            0x05 => Some(EmberKeyStatus::EmberKeyTableFull),
            0x06 => Some(EmberKeyStatus::EmberTcRespondedToKeyRequest),
            0x07 => Some(EmberKeyStatus::EmberTcAppKeySentToRequester),
            0x08 => Some(EmberKeyStatus::EmberTcResponseToKeyRequestFailed),
            0x09 => Some(EmberKeyStatus::EmberTcRequestKeyTypeNotSupported),
            0x0a => Some(EmberKeyStatus::EmberTcNoLinkKeyForRequester),
            0x0b => Some(EmberKeyStatus::EmberTcRequesterEui64Unknown),
            0x0c => Some(EmberKeyStatus::EmberTcReceivedFirstAppKeyRequest),
            0x0d => Some(EmberKeyStatus::EmberTcTimeoutWaitingForSecondAppKeyRequest),
            0x0e => Some(EmberKeyStatus::EmberTcNonMatchingAppKeyRequestReceived),
            0x0f => Some(EmberKeyStatus::EmberTcFailedToSendAppKeys),
            0x10 => Some(EmberKeyStatus::EmberTcFailedToStoreAppKeyRequest),
            0x11 => Some(EmberKeyStatus::EmberTcRejectedAppKeyRequest),
            _ => None,
        }
    }
}

/// What the trust center decided on a join.
#[derive(Debug, Clone, Copy, PartialEq, Eq, Structural)]
pub enum EmberJoinDecision {
    /// Allow the node to join. The joining node should have a pre-configured key. The security data sent to it will be encrypted with that key.
    EmberUsePreconfiguredKey,
    /// Allow the node to join. Send the network key in-the-clear to the joining device.
    EmberSendKeyInTheClear,
    /// Deny join.
    EmberDenyJoin,
    /// Take no action.
    EmberNoAction,
}

impl EmberJoinDecision {
    /// The byte written for the value.
    pub open spec fn spec_id(self) -> u8 {
        match self {
            EmberJoinDecision::EmberUsePreconfiguredKey => 0x00,
            EmberJoinDecision::EmberSendKeyInTheClear => 0x01,
            EmberJoinDecision::EmberDenyJoin => 0x02,
            EmberJoinDecision::EmberNoAction => 0x03,
        }
    }

    /// The value a byte is read as, if any.
    pub open spec fn spec_of(x: u8) -> Option<Self> {
        match x {
            0x00 => Some(EmberJoinDecision::EmberUsePreconfiguredKey),
            0x01 => Some(EmberJoinDecision::EmberSendKeyInTheClear),
            0x02 => Some(EmberJoinDecision::EmberDenyJoin),
            0x03 => Some(EmberJoinDecision::EmberNoAction),
            _ => None,
        }
    }

    /// The byte written for the value, as `spec_id` says.
    pub fn id(&self) -> (r: u8)
        ensures
            r == self.spec_id(),
    {
        match self {
            EmberJoinDecision::EmberUsePreconfiguredKey => 0x00,
            EmberJoinDecision::EmberSendKeyInTheClear => 0x01,
            EmberJoinDecision::EmberDenyJoin => 0x02,
            EmberJoinDecision::EmberNoAction => 0x03,
        }
    }

    /// The value a byte is read as, as `spec_of` says.
    pub fn of(x: u8) -> (r: Option<Self>)
        ensures
            r == Self::spec_of(x),
    {
        match x {
            0x00 => Some(EmberJoinDecision::EmberUsePreconfiguredKey),
            0x01 => Some(EmberJoinDecision::EmberSendKeyInTheClear),
            0x02 => Some(EmberJoinDecision::EmberDenyJoin),
            0x03 => Some(EmberJoinDecision::EmberNoAction),
            _ => None,
        }
    }
}

/// Network parameters.
#[derive(Debug, Clone, Copy, PartialEq, Eq)]
pub struct EmberNetworkParameters {
    /// The network's extended PAN identifier.
    pub extended_pan_id: [u8; 8],
    /// The network's PAN identifier.
    pub pan_id: u16,
    /// A power setting, in dBm.
    pub radio_tx_power: u8,
    /// A radio channel.
    pub radio_channel: u8,
    /// The method used to initially join the network.
    pub join_method: EmberJoinMethod,
    /// The identifier of the network manager.
    pub nwk_manager_id: u16,
    /// The network update identifier.
    pub nwk_update_id: u8,
    /// The channel mask.
    pub channels: u32,
}

/// The model of `EmberNetworkParameters`.
pub struct EmberNetworkParametersV {
    pub extended_pan_id: Seq<u8>,
    pub pan_id: u16,
    pub radio_tx_power: u8,
    pub radio_channel: u8,
    pub join_method: EmberJoinMethod,
    pub nwk_manager_id: u16,
    pub nwk_update_id: u8,
    pub channels: u32,
}

impl View for EmberNetworkParameters {
    type V = EmberNetworkParametersV;

    open spec fn view(&self) -> EmberNetworkParametersV {
        EmberNetworkParametersV {
            extended_pan_id: self.extended_pan_id@,
            pan_id: self.pan_id,
            radio_tx_power: self.radio_tx_power,
            radio_channel: self.radio_channel,
            join_method: self.join_method,
            nwk_manager_id: self.nwk_manager_id,
            nwk_update_id: self.nwk_update_id,
            channels: self.channels,
        }
    }
}

/// The bytes of `EmberNetworkParameters`, field by field.
pub open spec fn ember_network_parameters_bytes(s: EmberNetworkParametersV) -> Seq<u8> {
    s.extended_pan_id + le16(s.pan_id) + seq![s.radio_tx_power] + seq![s.radio_channel] + seq![s.join_method.spec_id()] + le16(s.nwk_manager_id) + seq![s.nwk_update_id] + le32(s.channels)
}

impl EmberNetworkParameters {
    /// Appends the bytes, as `ember_network_parameters_bytes` says.
    pub fn write(&self, out: &mut Vec<u8>)
        ensures
            final(out)@ == old(out)@ + ember_network_parameters_bytes(self@),
    {
        let ghost start = out@;
        append_bytes(out, &self.extended_pan_id);
        push16(out, self.pan_id);
        out.push(self.radio_tx_power);
        out.push(self.radio_channel);
        out.push(self.join_method.id());
        push16(out, self.nwk_manager_id);
        out.push(self.nwk_update_id);
        push32(out, self.channels);
        proof {
            assert(out@ =~= start + ember_network_parameters_bytes(self@));
        }
    }
}

/// The APS frame parameters of a message.
#[derive(Debug, Clone, Copy, PartialEq, Eq)]
pub struct EmberApsFrame {
    /// The application profile of the message.
    pub profile_id: u16,
    /// The cluster of the message.
    pub cluster_id: u16,
    /// The source endpoint.
    pub source_endpoint: u8,
    /// The destination endpoint.
    pub destination_endpoint: u8,
    /// A bitmask of options.
    pub options: u16,
    /// The group, for a multicast.
    pub group_id: u16,
    /// The sequence number.
    pub sequence: u8,
}

/// The model of `EmberApsFrame`.
pub struct EmberApsFrameV {
    pub profile_id: u16,
    pub cluster_id: u16,
    pub source_endpoint: u8,
    pub destination_endpoint: u8,
    pub options: u16,
    pub group_id: u16,
    pub sequence: u8,
}

impl View for EmberApsFrame {
    type V = EmberApsFrameV;

    open spec fn view(&self) -> EmberApsFrameV {
        EmberApsFrameV {
            profile_id: self.profile_id,
            cluster_id: self.cluster_id,
            source_endpoint: self.source_endpoint,
            destination_endpoint: self.destination_endpoint,
            options: self.options,
            group_id: self.group_id,
            sequence: self.sequence,
        }
    }
}

/// The bytes of `EmberApsFrame`, field by field.
pub open spec fn ember_aps_frame_bytes(s: EmberApsFrameV) -> Seq<u8> {
    le16(s.profile_id) + le16(s.cluster_id) + seq![s.source_endpoint] + seq![s.destination_endpoint] + le16(s.options) + le16(s.group_id) + seq![s.sequence]
}

impl EmberApsFrame {
    /// Appends the bytes, as `ember_aps_frame_bytes` says.
    pub fn write(&self, out: &mut Vec<u8>)
        ensures
            final(out)@ == old(out)@ + ember_aps_frame_bytes(self@),
    {
        let ghost start = out@;
        push16(out, self.profile_id);
        push16(out, self.cluster_id);
        out.push(self.source_endpoint);
        out.push(self.destination_endpoint);
        push16(out, self.options);
        push16(out, self.group_id);
        out.push(self.sequence);
        proof {
            assert(out@ =~= start + ember_aps_frame_bytes(self@));
        }
    }
}

/// An entry of the multicast table: an endpoint that is a member of a group.
#[derive(Debug, Clone, Copy, PartialEq, Eq)]
pub struct EmberMulticastTableEntry {
    /// The multicast group.
    pub multicast_id: u16,
    /// The member endpoint, 0 for an unused entry.
    pub endpoint: u8,
    /// The network the entry belongs to.
    pub network_index: u8,
}

/// The model of `EmberMulticastTableEntry`.
pub struct EmberMulticastTableEntryV {
    pub multicast_id: u16,
    pub endpoint: u8,
    pub network_index: u8,
}

impl View for EmberMulticastTableEntry {
    type V = EmberMulticastTableEntryV;

    open spec fn view(&self) -> EmberMulticastTableEntryV {
        EmberMulticastTableEntryV {
            multicast_id: self.multicast_id,
            endpoint: self.endpoint,
            network_index: self.network_index,
        }
    }
}

/// The bytes of `EmberMulticastTableEntry`, field by field.
pub open spec fn ember_multicast_table_entry_bytes(s: EmberMulticastTableEntryV) -> Seq<u8> {
    le16(s.multicast_id) + seq![s.endpoint] + seq![s.network_index]
}

impl EmberMulticastTableEntry {
    /// Appends the bytes, as `ember_multicast_table_entry_bytes` says.
    pub fn write(&self, out: &mut Vec<u8>)
        ensures
            final(out)@ == old(out)@ + ember_multicast_table_entry_bytes(self@),
    {
        let ghost start = out@;
        push16(out, self.multicast_id);
        out.push(self.endpoint);
        out.push(self.network_index);
        proof {
            assert(out@ =~= start + ember_multicast_table_entry_bytes(self@));
        }
    }
}

/// A 128 bit key.
#[derive(Debug, Clone, Copy, PartialEq, Eq)]
pub struct EmberKeyData {
    /// The key bytes.
    pub contents: [u8; 16],
}

/// The model of `EmberKeyData`.
pub struct EmberKeyDataV {
    pub contents: Seq<u8>,
}

impl View for EmberKeyData {
    type V = EmberKeyDataV;

    open spec fn view(&self) -> EmberKeyDataV {
        EmberKeyDataV {
            contents: self.contents@,
        }
    }
}

/// The bytes of `EmberKeyData`, field by field.
pub open spec fn ember_key_data_bytes(s: EmberKeyDataV) -> Seq<u8> {
    s.contents
}

impl EmberKeyData {
    /// Appends the bytes, as `ember_key_data_bytes` says.
    pub fn write(&self, out: &mut Vec<u8>)
        ensures
            final(out)@ == old(out)@ + ember_key_data_bytes(self@),
    {
        let ghost start = out@;
        append_bytes(out, &self.contents);
        proof {
            assert(out@ =~= start + ember_key_data_bytes(self@));
        }
    }
}

/// The security configuration to form or join a network with.
#[derive(Debug, Clone, Copy, PartialEq, Eq)]
pub struct EmberInitialSecurityState {
    /// The security features in use.
    pub bitmask: u16,
    /// The preconfigured link key.
    pub preconfigured_key: EmberKeyData,
    /// The network key.
    pub network_key: EmberKeyData,
    /// The network key's sequence number.
    pub network_key_sequence_number: u8,
    /// The trust center to join, where the bitmask says so.
    pub preconfigured_trust_center_eui64: u64,
}

/// The model of `EmberInitialSecurityState`.
pub struct EmberInitialSecurityStateV {
    pub bitmask: u16,
    pub preconfigured_key: EmberKeyDataV,
    pub network_key: EmberKeyDataV,
    pub network_key_sequence_number: u8,
    pub preconfigured_trust_center_eui64: u64,
}

impl View for EmberInitialSecurityState {
    type V = EmberInitialSecurityStateV;

    open spec fn view(&self) -> EmberInitialSecurityStateV {
        EmberInitialSecurityStateV {
            bitmask: self.bitmask,
            preconfigured_key: self.preconfigured_key@,
            network_key: self.network_key@,
            network_key_sequence_number: self.network_key_sequence_number,
            preconfigured_trust_center_eui64: self.preconfigured_trust_center_eui64,
        }
    }
}

/// The bytes of `EmberInitialSecurityState`, field by field.
pub open spec fn ember_initial_security_state_bytes(s: EmberInitialSecurityStateV) -> Seq<u8> {
    le16(s.bitmask) + ember_key_data_bytes(s.preconfigured_key) + ember_key_data_bytes(s.network_key) + seq![s.network_key_sequence_number] + le64(s.preconfigured_trust_center_eui64)
}

impl EmberInitialSecurityState {
    /// Appends the bytes, as `ember_initial_security_state_bytes` says.
    pub fn write(&self, out: &mut Vec<u8>)
        ensures
            final(out)@ == old(out)@ + ember_initial_security_state_bytes(self@),
    {
        let ghost start = out@;
        push16(out, self.bitmask);
        self.preconfigured_key.write(out);
        self.network_key.write(out);
        out.push(self.network_key_sequence_number);
        push64(out, self.preconfigured_trust_center_eui64);
        proof {
            assert(out@ =~= start + ember_initial_security_state_bytes(self@));
        }
    }
}

/// The security options in use.
#[derive(Debug, Clone, Copy, PartialEq, Eq)]
pub struct EmberCurrentSecurityState {
    /// The security options.
    pub bitmask: u16,
    /// The address of the trust center.
    pub trust_center_long_address: u64,
}

/// The model of `EmberCurrentSecurityState`.
pub struct EmberCurrentSecurityStateV {
    pub bitmask: u16,
    pub trust_center_long_address: u64,
}

impl View for EmberCurrentSecurityState {
    type V = EmberCurrentSecurityStateV;

    open spec fn view(&self) -> EmberCurrentSecurityStateV {
        EmberCurrentSecurityStateV {
            bitmask: self.bitmask,
            trust_center_long_address: self.trust_center_long_address,
        }
    }
}

/// The bytes of `EmberCurrentSecurityState`, field by field.
pub open spec fn ember_current_security_state_bytes(s: EmberCurrentSecurityStateV) -> Seq<u8> {
    le16(s.bitmask) + le64(s.trust_center_long_address)
}

impl EmberCurrentSecurityState {
    /// Appends the bytes, as `ember_current_security_state_bytes` says.
    pub fn write(&self, out: &mut Vec<u8>)
        ensures
            final(out)@ == old(out)@ + ember_current_security_state_bytes(self@),
    {
        let ghost start = out@;
        push16(out, self.bitmask);
        push64(out, self.trust_center_long_address);
        proof {
            assert(out@ =~= start + ember_current_security_state_bytes(self@));
        }
    }
}

/// The options of a network initialisation.
#[derive(Debug, Clone, Copy, PartialEq, Eq)]
pub struct EmberNetworkInitStruct {
    /// The options.
    pub bitmask: u16,
}

/// The model of `EmberNetworkInitStruct`.
pub struct EmberNetworkInitStructV {
    pub bitmask: u16,
}

impl View for EmberNetworkInitStruct {
    type V = EmberNetworkInitStructV;

    open spec fn view(&self) -> EmberNetworkInitStructV {
        EmberNetworkInitStructV {
            bitmask: self.bitmask,
        }
    }
}

/// The bytes of `EmberNetworkInitStruct`, field by field.
pub open spec fn ember_network_init_struct_bytes(s: EmberNetworkInitStructV) -> Seq<u8> {
    le16(s.bitmask)
}

impl EmberNetworkInitStruct {
    /// Appends the bytes, as `ember_network_init_struct_bytes` says.
    pub fn write(&self, out: &mut Vec<u8>)
        ensures
            final(out)@ == old(out)@ + ember_network_init_struct_bytes(self@),
    {
        let ghost start = out@;
        push16(out, self.bitmask);
        proof {
            assert(out@ =~= start + ember_network_init_struct_bytes(self@));
        }
    }
}

/// The commands this host sends to the network co-processor.
#[derive(Debug, Clone, PartialEq, Eq)]
pub enum CommandData {
    Version { desired_protocol_version: u8 },
    AddEndpoint { endpoint: u8, profile_id: u16, device_id: u16, app_flags: u8, input_cluster_count: u8, output_cluster_count: u8, input_cluster_list: Vec<u16>, output_cluster_list: Vec<u16> },
    Nop,
    SetConcentrator { on: Bool, concentrator_type: u16, min_time: u16, max_time: u16, route_error_threshold: u8, delivery_failure_threshold: u8, max_hops: u8 },
    NetworkInit(EmberNetworkInitStruct),
    FormNetwork(EmberNetworkParameters),
    PermitJoining { duration: u8 },
    GetEui64,
    GetNetworkParameters,
    SendUnicast { message_type: EmberOutgoingMessageType, index_or_destination: u16, aps_frame: EmberApsFrame, message_tag: u8, message_length: u8, message_contents: Vec<u8> },
    GetRandomNumber,
    SetConfigurationValue { config_id: EzspConfigId, value: u16 },
    SetPolicy { policy_id: EzspPolicyId, decision_id: EzspDecisionId },
    GetAddressTableRemoteNodeId { address_table_index: u8 },
    SetMulticastTableEntry { index: u8, value: EmberMulticastTableEntry },
    SetInitialSecurityState { state: EmberInitialSecurityState },
    GetCurrentSecurityState,
    Echo { count: u8, data: Vec<u8> },
    SetValue { value_id: EzspValueId, value_length: u8, value: Vec<u8> },
}

/// The model of a command.
pub enum CommandV {
    Version { desired_protocol_version: u8 },
    AddEndpoint { endpoint: u8, profile_id: u16, device_id: u16, app_flags: u8, input_cluster_count: u8, output_cluster_count: u8, input_cluster_list: Seq<u16>, output_cluster_list: Seq<u16> },
    Nop,
    SetConcentrator { on: Bool, concentrator_type: u16, min_time: u16, max_time: u16, route_error_threshold: u8, delivery_failure_threshold: u8, max_hops: u8 },
    NetworkInit(EmberNetworkInitStructV),
    FormNetwork(EmberNetworkParametersV),
    PermitJoining { duration: u8 },
    GetEui64,
    GetNetworkParameters,
    SendUnicast { message_type: EmberOutgoingMessageType, index_or_destination: u16, aps_frame: EmberApsFrameV, message_tag: u8, message_length: u8, message_contents: Seq<u8> },
    GetRandomNumber,
    SetConfigurationValue { config_id: EzspConfigId, value: u16 },
    SetPolicy { policy_id: EzspPolicyId, decision_id: EzspDecisionId },
    GetAddressTableRemoteNodeId { address_table_index: u8 },
    SetMulticastTableEntry { index: u8, value: EmberMulticastTableEntryV },
    SetInitialSecurityState { state: EmberInitialSecurityStateV },
    GetCurrentSecurityState,
    Echo { count: u8, data: Seq<u8> },
    SetValue { value_id: EzspValueId, value_length: u8, value: Seq<u8> },
}

impl View for CommandData {
    type V = CommandV;

    open spec fn view(&self) -> CommandV {
        match self {
            CommandData::Version { desired_protocol_version } => CommandV::Version { desired_protocol_version: *desired_protocol_version },
            CommandData::AddEndpoint { endpoint, profile_id, device_id, app_flags, input_cluster_count, output_cluster_count, input_cluster_list, output_cluster_list } => CommandV::AddEndpoint { endpoint: *endpoint, profile_id: *profile_id, device_id: *device_id, app_flags: *app_flags, input_cluster_count: *input_cluster_count, output_cluster_count: *output_cluster_count, input_cluster_list: input_cluster_list@, output_cluster_list: output_cluster_list@ },
            CommandData::Nop => CommandV::Nop,
            CommandData::SetConcentrator { on, concentrator_type, min_time, max_time, route_error_threshold, delivery_failure_threshold, max_hops } => CommandV::SetConcentrator { on: *on, concentrator_type: *concentrator_type, min_time: *min_time, max_time: *max_time, route_error_threshold: *route_error_threshold, delivery_failure_threshold: *delivery_failure_threshold, max_hops: *max_hops },
            CommandData::NetworkInit(s) => CommandV::NetworkInit(s@),
            CommandData::FormNetwork(s) => CommandV::FormNetwork(s@),
            CommandData::PermitJoining { duration } => CommandV::PermitJoining { duration: *duration },
            CommandData::GetEui64 => CommandV::GetEui64,
            CommandData::GetNetworkParameters => CommandV::GetNetworkParameters,
            CommandData::SendUnicast { message_type, index_or_destination, aps_frame, message_tag, message_length, message_contents } => CommandV::SendUnicast { message_type: *message_type, index_or_destination: *index_or_destination, aps_frame: aps_frame@, message_tag: *message_tag, message_length: *message_length, message_contents: message_contents@ },
            CommandData::GetRandomNumber => CommandV::GetRandomNumber,
            CommandData::SetConfigurationValue { config_id, value } => CommandV::SetConfigurationValue { config_id: *config_id, value: *value },
            CommandData::SetPolicy { policy_id, decision_id } => CommandV::SetPolicy { policy_id: *policy_id, decision_id: *decision_id },
            CommandData::GetAddressTableRemoteNodeId { address_table_index } => CommandV::GetAddressTableRemoteNodeId { address_table_index: *address_table_index },
            CommandData::SetMulticastTableEntry { index, value } => CommandV::SetMulticastTableEntry { index: *index, value: value@ },
            CommandData::SetInitialSecurityState { state } => CommandV::SetInitialSecurityState { state: state@ },
            CommandData::GetCurrentSecurityState => CommandV::GetCurrentSecurityState,
            CommandData::Echo { count, data } => CommandV::Echo { count: *count, data: data@ },
            CommandData::SetValue { value_id, value_length, value } => CommandV::SetValue { value_id: *value_id, value_length: *value_length, value: value@ },
        }
    }
}

/// The frame identifier of a command.
pub open spec fn command_id(c: CommandV) -> u16 {
    match c {
        CommandV::Version { .. } => 0x0000,
        CommandV::AddEndpoint { .. } => 0x0002,
        CommandV::Nop => 0x0005,
        CommandV::SetConcentrator { .. } => 0x0010,
        CommandV::NetworkInit(..) => 0x0017,
        CommandV::FormNetwork(..) => 0x001e,
        CommandV::PermitJoining { .. } => 0x0022,
        CommandV::GetEui64 => 0x0026,
        CommandV::GetNetworkParameters => 0x0028,
        CommandV::SendUnicast { .. } => 0x0034,
        CommandV::GetRandomNumber => 0x0049,
        CommandV::SetConfigurationValue { .. } => 0x0053,
        CommandV::SetPolicy { .. } => 0x0055,
        CommandV::GetAddressTableRemoteNodeId { .. } => 0x005f,
        CommandV::SetMulticastTableEntry { .. } => 0x0064,
        CommandV::SetInitialSecurityState { .. } => 0x0068,
        CommandV::GetCurrentSecurityState => 0x0069,
        CommandV::Echo { .. } => 0x0081,
        CommandV::SetValue { .. } => 0x00ab,
    }
}

/// The parameter bytes of a command: its fields in order; a list is
/// written whole, whatever its count says.
pub open spec fn command_params(c: CommandV) -> Seq<u8> {
    match c {
        CommandV::Version { desired_protocol_version } => seq![desired_protocol_version],
        CommandV::AddEndpoint { endpoint, profile_id, device_id, app_flags, input_cluster_count, output_cluster_count, input_cluster_list, output_cluster_list } => seq![endpoint] + le16(profile_id) + le16(device_id) + seq![app_flags] + seq![input_cluster_count] + seq![output_cluster_count] + ids_bytes(input_cluster_list) + ids_bytes(output_cluster_list),
        CommandV::Nop => Seq::empty(),
        CommandV::SetConcentrator { on, concentrator_type, min_time, max_time, route_error_threshold, delivery_failure_threshold, max_hops } => seq![on.spec_id()] + le16(concentrator_type) + le16(min_time) + le16(max_time) + seq![route_error_threshold] + seq![delivery_failure_threshold] + seq![max_hops],
        CommandV::NetworkInit(s) => ember_network_init_struct_bytes(s),
        CommandV::FormNetwork(s) => ember_network_parameters_bytes(s),
        CommandV::PermitJoining { duration } => seq![duration],
        CommandV::GetEui64 => Seq::empty(),
        CommandV::GetNetworkParameters => Seq::empty(),
        CommandV::SendUnicast { message_type, index_or_destination, aps_frame, message_tag, message_length, message_contents } => seq![message_type.spec_id()] + le16(index_or_destination) + ember_aps_frame_bytes(aps_frame) + seq![message_tag] + seq![message_length] + message_contents,
        CommandV::GetRandomNumber => Seq::empty(),
        CommandV::SetConfigurationValue { config_id, value } => seq![config_id.spec_id()] + le16(value),
        CommandV::SetPolicy { policy_id, decision_id } => seq![policy_id.spec_id()] + seq![decision_id.spec_id()],
        CommandV::GetAddressTableRemoteNodeId { address_table_index } => seq![address_table_index],
        CommandV::SetMulticastTableEntry { index, value } => seq![index] + ember_multicast_table_entry_bytes(value),
        CommandV::SetInitialSecurityState { state } => ember_initial_security_state_bytes(state),
        CommandV::GetCurrentSecurityState => Seq::empty(),
        CommandV::Echo { count, data } => seq![count] + data,
        CommandV::SetValue { value_id, value_length, value } => seq![value_id.spec_id()] + seq![value_length] + value,
    }
}

impl CommandData {
    /// Appends the parameter bytes, as `command_params` says.
    fn write_params(&self, out: &mut Vec<u8>)
        ensures
            final(out)@ == old(out)@ + command_params(self@),
    {
        let ghost start = out@;
        match self {
            CommandData::Version { desired_protocol_version } => {
                out.push(*desired_protocol_version);
            },
            CommandData::AddEndpoint { endpoint, profile_id, device_id, app_flags, input_cluster_count, output_cluster_count, input_cluster_list, output_cluster_list } => {
                out.push(*endpoint);
                push16(out, *profile_id);
                push16(out, *device_id);
                out.push(*app_flags);
                out.push(*input_cluster_count);
                out.push(*output_cluster_count);
                write_ids(out, input_cluster_list.as_slice());
                write_ids(out, output_cluster_list.as_slice());
            },
            CommandData::Nop => {},
            CommandData::SetConcentrator { on, concentrator_type, min_time, max_time, route_error_threshold, delivery_failure_threshold, max_hops } => {
                out.push(on.id());
                push16(out, *concentrator_type);
                push16(out, *min_time);
                push16(out, *max_time);
                out.push(*route_error_threshold);
                out.push(*delivery_failure_threshold);
                out.push(*max_hops);
            },
            CommandData::NetworkInit(s) => s.write(out),
            CommandData::FormNetwork(s) => s.write(out),
            CommandData::PermitJoining { duration } => {
                out.push(*duration);
            },
            CommandData::GetEui64 => {},
            CommandData::GetNetworkParameters => {},
            CommandData::SendUnicast { message_type, index_or_destination, aps_frame, message_tag, message_length, message_contents } => {
                out.push(message_type.id());
                push16(out, *index_or_destination);
                aps_frame.write(out);
                out.push(*message_tag);
                out.push(*message_length);
                append_bytes(out, message_contents.as_slice());
            },
            CommandData::GetRandomNumber => {},
            CommandData::SetConfigurationValue { config_id, value } => {
                out.push(config_id.id());
                push16(out, *value);
            },
            CommandData::SetPolicy { policy_id, decision_id } => {
                out.push(policy_id.id());
                out.push(decision_id.id());
            },
            CommandData::GetAddressTableRemoteNodeId { address_table_index } => {
                out.push(*address_table_index);
            },
            CommandData::SetMulticastTableEntry { index, value } => {
                out.push(*index);
                value.write(out);
            },
            CommandData::SetInitialSecurityState { state } => {
                state.write(out);
            },
            CommandData::GetCurrentSecurityState => {},
            CommandData::Echo { count, data } => {
                out.push(*count);
                append_bytes(out, data.as_slice());
            },
            CommandData::SetValue { value_id, value_length, value } => {
                out.push(value_id.id());
                out.push(*value_length);
                append_bytes(out, value.as_slice());
            },
        }
        proof {
            assert(out@ =~= start + command_params(self@));
        }
    }

    /// The frame identifier, as `command_id` says.
    pub fn frame_id(&self) -> (r: u16)
        ensures
            r == command_id(self@),
    {
        match self {
            CommandData::Version { .. } => 0x0000,
            CommandData::AddEndpoint { .. } => 0x0002,
            CommandData::Nop => 0x0005,
            CommandData::SetConcentrator { .. } => 0x0010,
            CommandData::NetworkInit(..) => 0x0017,
            CommandData::FormNetwork(..) => 0x001e,
            CommandData::PermitJoining { .. } => 0x0022,
            CommandData::GetEui64 => 0x0026,
            CommandData::GetNetworkParameters => 0x0028,
            CommandData::SendUnicast { .. } => 0x0034,
            CommandData::GetRandomNumber => 0x0049,
            CommandData::SetConfigurationValue { .. } => 0x0053,
            CommandData::SetPolicy { .. } => 0x0055,
            CommandData::GetAddressTableRemoteNodeId { .. } => 0x005f,
            CommandData::SetMulticastTableEntry { .. } => 0x0064,
            CommandData::SetInitialSecurityState { .. } => 0x0068,
            CommandData::GetCurrentSecurityState => 0x0069,
            CommandData::Echo { .. } => 0x0081,
            CommandData::SetValue { .. } => 0x00ab,
        }
    }

    /// The command as a frame identifier and parameter bytes.
    pub fn to_raw(&self) -> (r: RawCommand)
        ensures
            r@ == (command_id(self@), command_params(self@)),
            self@ matches CommandV::SetPolicy { policy_id, decision_id } ==> r@.1 == seq![
                policy_id.spec_id(),
                decision_id.spec_id(),
            ],
    {
        let mut params: Vec<u8> = Vec::new();
        self.write_params(&mut params);
        proof {
            assert(params@ =~= command_params(self@));
            if let CommandV::SetPolicy { policy_id, decision_id } = self@ {
                assert(command_params(self@) =~= seq![policy_id.spec_id(), decision_id.spec_id()]);
            }
        }
        RawCommand { frame_id: self.frame_id(), params }
    }
}

/// The responses and callbacks this host reads from the network
/// co-processor. Of two with the same identifier the first is read.
#[derive(Debug, Clone, PartialEq, Eq)]
pub enum ResponseData {
    Version { protocol_version: u8, stack_type: u8, stack_version: u16 },
    AddEndpoint { status: EzspStatus },
    Nop,
    StackTokenChangedHandler { token_address: u16 },
    SetConcentrator { status: EmberStatus },
    NetworkInit { status: EmberStatus },
    FormNetwork { status: EmberStatus },
    StackStatusHandler { status: EmberStatus },
    PermitJoining { status: EmberStatus },
    ChildJoinHandler { index: u8, joining: Bool, child_id: u16, child_eui64: u64, child_type: EmberNodeType },
    TrustCenterJoinHandler { new_node_id: u16, new_node_eui64: u64, statue: u8, policy_decision: EmberJoinDecision, parent_of_new_node_id: u16 },
    GetEui64 { eui64: u64 },
    GetNetworkParameters { status: EmberStatus, node_type: EmberNodeType, parameters: EmberNetworkParameters },
    SendUnicast { status: EmberStatus, sequence: u8 },
    MessageSentHandler { message_type: EmberOutgoingMessageType, index_or_destination: u16, aps_frame: EmberApsFrame, message_tag: u8, status: EmberStatus, message_length: u8, message_contents: Vec<u8> },
    PollHandler { child_id: u16, d: Vec<u8> },
    IncomingMessageHandler { message_type: EmberIncomingMessageType, aps_frame: EmberApsFrame, last_hop_lqi: u8, last_hop_rssi: i8, sender: u16, binding_index: u8, address_index: u8, message_length: u8, message_contents: Vec<u8>, d: Vec<u8> },
    GetRandomNumber { status: EmberStatus, value: u16 },
    SetConfigurationValue { status: EzspStatus },
    SetPolicy { status: EzspStatus },
    IncomingRouteRecordHandler { d: Vec<u8> },
    GetAddressTableRemoteNodeId { node_id: u16 },
    IncomingSenderEui64Handler { sender_eui64: u64 },
    SetMulticastTableEntry { status: EmberStatus },
    SetInitialSecurityState { status: EmberStatus },
    GetCurrentSecurityState { status: EmberStatus, state: EmberCurrentSecurityState },
    IncomingRouteErrorHandler { status: EmberStatus, target: u16 },
    Echo { count: u8, data: Vec<u8> },
    ZigbeeKeyEstablishmentHandler { partner: u64, status: EmberKeyStatus },
    SetValue { status: EzspStatus },
}

/// The model of a response.
pub enum ResponseV {
    Version { protocol_version: u8, stack_type: u8, stack_version: u16 },
    AddEndpoint { status: EzspStatus },
    Nop,
    StackTokenChangedHandler { token_address: u16 },
    SetConcentrator { status: EmberStatus },
    NetworkInit { status: EmberStatus },
    FormNetwork { status: EmberStatus },
    StackStatusHandler { status: EmberStatus },
    PermitJoining { status: EmberStatus },
    ChildJoinHandler { index: u8, joining: Bool, child_id: u16, child_eui64: u64, child_type: EmberNodeType },
    TrustCenterJoinHandler { new_node_id: u16, new_node_eui64: u64, statue: u8, policy_decision: EmberJoinDecision, parent_of_new_node_id: u16 },
    GetEui64 { eui64: u64 },
    GetNetworkParameters { status: EmberStatus, node_type: EmberNodeType, parameters: EmberNetworkParametersV },
    SendUnicast { status: EmberStatus, sequence: u8 },
    MessageSentHandler { message_type: EmberOutgoingMessageType, index_or_destination: u16, aps_frame: EmberApsFrameV, message_tag: u8, status: EmberStatus, message_length: u8, message_contents: Seq<u8> },
    PollHandler { child_id: u16, d: Seq<u8> },
    IncomingMessageHandler { message_type: EmberIncomingMessageType, aps_frame: EmberApsFrameV, last_hop_lqi: u8, last_hop_rssi: i8, sender: u16, binding_index: u8, address_index: u8, message_length: u8, message_contents: Seq<u8>, d: Seq<u8> },
    GetRandomNumber { status: EmberStatus, value: u16 },
    SetConfigurationValue { status: EzspStatus },
    SetPolicy { status: EzspStatus },
    IncomingRouteRecordHandler { d: Seq<u8> },
    GetAddressTableRemoteNodeId { node_id: u16 },
    IncomingSenderEui64Handler { sender_eui64: u64 },
    SetMulticastTableEntry { status: EmberStatus },
    SetInitialSecurityState { status: EmberStatus },
    GetCurrentSecurityState { status: EmberStatus, state: EmberCurrentSecurityStateV },
    IncomingRouteErrorHandler { status: EmberStatus, target: u16 },
    Echo { count: u8, data: Seq<u8> },
    ZigbeeKeyEstablishmentHandler { partner: u64, status: EmberKeyStatus },
    SetValue { status: EzspStatus },
}

impl View for ResponseData {
    type V = ResponseV;

    open spec fn view(&self) -> ResponseV {
        match self {
            ResponseData::Version { protocol_version, stack_type, stack_version } => ResponseV::Version { protocol_version: *protocol_version, stack_type: *stack_type, stack_version: *stack_version },
            ResponseData::AddEndpoint { status } => ResponseV::AddEndpoint { status: *status },
            ResponseData::Nop => ResponseV::Nop,
            ResponseData::StackTokenChangedHandler { token_address } => ResponseV::StackTokenChangedHandler { token_address: *token_address },
            ResponseData::SetConcentrator { status } => ResponseV::SetConcentrator { status: *status },
            ResponseData::NetworkInit { status } => ResponseV::NetworkInit { status: *status },
            ResponseData::FormNetwork { status } => ResponseV::FormNetwork { status: *status },
            ResponseData::StackStatusHandler { status } => ResponseV::StackStatusHandler { status: *status },
            ResponseData::PermitJoining { status } => ResponseV::PermitJoining { status: *status },
            ResponseData::ChildJoinHandler { index, joining, child_id, child_eui64, child_type } => ResponseV::ChildJoinHandler { index: *index, joining: *joining, child_id: *child_id, child_eui64: *child_eui64, child_type: *child_type },
            ResponseData::TrustCenterJoinHandler { new_node_id, new_node_eui64, statue, policy_decision, parent_of_new_node_id } => ResponseV::TrustCenterJoinHandler { new_node_id: *new_node_id, new_node_eui64: *new_node_eui64, statue: *statue, policy_decision: *policy_decision, parent_of_new_node_id: *parent_of_new_node_id },
            ResponseData::GetEui64 { eui64 } => ResponseV::GetEui64 { eui64: *eui64 },
            ResponseData::GetNetworkParameters { status, node_type, parameters } => ResponseV::GetNetworkParameters { status: *status, node_type: *node_type, parameters: parameters@ },
            ResponseData::SendUnicast { status, sequence } => ResponseV::SendUnicast { status: *status, sequence: *sequence },
            ResponseData::MessageSentHandler { message_type, index_or_destination, aps_frame, message_tag, status, message_length, message_contents } => ResponseV::MessageSentHandler { message_type: *message_type, index_or_destination: *index_or_destination, aps_frame: aps_frame@, message_tag: *message_tag, status: *status, message_length: *message_length, message_contents: message_contents@ },
            ResponseData::PollHandler { child_id, d } => ResponseV::PollHandler { child_id: *child_id, d: d@ },
            ResponseData::IncomingMessageHandler { message_type, aps_frame, last_hop_lqi, last_hop_rssi, sender, binding_index, address_index, message_length, message_contents, d } => ResponseV::IncomingMessageHandler { message_type: *message_type, aps_frame: aps_frame@, last_hop_lqi: *last_hop_lqi, last_hop_rssi: *last_hop_rssi, sender: *sender, binding_index: *binding_index, address_index: *address_index, message_length: *message_length, message_contents: message_contents@, d: d@ },
            ResponseData::GetRandomNumber { status, value } => ResponseV::GetRandomNumber { status: *status, value: *value },
            ResponseData::SetConfigurationValue { status } => ResponseV::SetConfigurationValue { status: *status },
            ResponseData::SetPolicy { status } => ResponseV::SetPolicy { status: *status },
            ResponseData::IncomingRouteRecordHandler { d } => ResponseV::IncomingRouteRecordHandler { d: d@ },
            ResponseData::GetAddressTableRemoteNodeId { node_id } => ResponseV::GetAddressTableRemoteNodeId { node_id: *node_id },
            ResponseData::IncomingSenderEui64Handler { sender_eui64 } => ResponseV::IncomingSenderEui64Handler { sender_eui64: *sender_eui64 },
            ResponseData::SetMulticastTableEntry { status } => ResponseV::SetMulticastTableEntry { status: *status },
            ResponseData::SetInitialSecurityState { status } => ResponseV::SetInitialSecurityState { status: *status },
            ResponseData::GetCurrentSecurityState { status, state } => ResponseV::GetCurrentSecurityState { status: *status, state: state@ },
            ResponseData::IncomingRouteErrorHandler { status, target } => ResponseV::IncomingRouteErrorHandler { status: *status, target: *target },
            ResponseData::Echo { count, data } => ResponseV::Echo { count: *count, data: data@ },
            ResponseData::ZigbeeKeyEstablishmentHandler { partner, status } => ResponseV::ZigbeeKeyEstablishmentHandler { partner: *partner, status: *status },
            ResponseData::SetValue { status } => ResponseV::SetValue { status: *status },
        }
    }
}

/// The parameters of `Version`, read.
pub open spec fn parse_version(b: Seq<u8>) -> Result<ResponseV, FormatError> {
    if b.len() < 4 {
        Err(FormatError::Incomplete)
    } else if b.len() > 4 {
        Err(FormatError::TooMuchData)
    } else {
        Ok(ResponseV::Version { protocol_version: b[0], stack_type: b[1], stack_version: rd16(b, 2) })
    }
}

/// The parameters of `AddEndpoint`, read.
pub open spec fn parse_add_endpoint(b: Seq<u8>) -> Result<ResponseV, FormatError> {
    if b.len() < 0 + 1 {
        Err(FormatError::Incomplete)
    } else if EzspStatus::spec_of(b[0]) is None {
        Err(FormatError::UnknownVariant(b[0]))
    } else if b.len() < 1 {
        Err(FormatError::Incomplete)
    } else if b.len() > 1 {
        Err(FormatError::TooMuchData)
    } else {
        Ok(ResponseV::AddEndpoint { status: EzspStatus::spec_of(b[0]).unwrap() })
    }
}

/// The parameters of `Nop`, read.
pub open spec fn parse_nop(b: Seq<u8>) -> Result<ResponseV, FormatError> {
    if b.len() < 0 {
        Err(FormatError::Incomplete)
    } else if b.len() > 0 {
        Err(FormatError::TooMuchData)
    } else {
        Ok(ResponseV::Nop)
    }
}

/// The parameters of `StackTokenChangedHandler`, read.
pub open spec fn parse_stack_token_changed_handler(b: Seq<u8>) -> Result<ResponseV, FormatError> {
    if b.len() < 2 {
        Err(FormatError::Incomplete)
    } else if b.len() > 2 {
        Err(FormatError::TooMuchData)
    } else {
        Ok(ResponseV::StackTokenChangedHandler { token_address: rd16(b, 0) })
    }
}

/// The parameters of `SetConcentrator`, read.
pub open spec fn parse_set_concentrator(b: Seq<u8>) -> Result<ResponseV, FormatError> {
    if b.len() < 1 {
        Err(FormatError::Incomplete)
    } else if b.len() > 1 {
        Err(FormatError::TooMuchData)
    } else {
        Ok(ResponseV::SetConcentrator { status: EmberStatus::spec_of(b[0]).unwrap() })
    }
}

/// The parameters of `NetworkInit`, read.
pub open spec fn parse_network_init(b: Seq<u8>) -> Result<ResponseV, FormatError> {
    if b.len() < 1 {
        Err(FormatError::Incomplete)
    } else if b.len() > 1 {
        Err(FormatError::TooMuchData)
    } else {
        Ok(ResponseV::NetworkInit { status: EmberStatus::spec_of(b[0]).unwrap() })
    }
}

/// The parameters of `FormNetwork`, read.
pub open spec fn parse_form_network(b: Seq<u8>) -> Result<ResponseV, FormatError> {
    if b.len() < 1 {
        Err(FormatError::Incomplete)
    } else if b.len() > 1 {
        Err(FormatError::TooMuchData)
    } else {
        Ok(ResponseV::FormNetwork { status: EmberStatus::spec_of(b[0]).unwrap() })
    }
}

/// The parameters of `StackStatusHandler`, read.
pub open spec fn parse_stack_status_handler(b: Seq<u8>) -> Result<ResponseV, FormatError> {
    if b.len() < 1 {
        Err(FormatError::Incomplete)
    } else if b.len() > 1 {
        Err(FormatError::TooMuchData)
    } else {
        Ok(ResponseV::StackStatusHandler { status: EmberStatus::spec_of(b[0]).unwrap() })
    }
}

/// The parameters of `PermitJoining`, read.
pub open spec fn parse_permit_joining(b: Seq<u8>) -> Result<ResponseV, FormatError> {
    if b.len() < 1 {
        Err(FormatError::Incomplete)
    } else if b.len() > 1 {
        Err(FormatError::TooMuchData)
    } else {
        Ok(ResponseV::PermitJoining { status: EmberStatus::spec_of(b[0]).unwrap() })
    }
}

/// The parameters of `ChildJoinHandler`, read.
pub open spec fn parse_child_join_handler(b: Seq<u8>) -> Result<ResponseV, FormatError> {
    if b.len() < 1 + 1 {
        Err(FormatError::Incomplete)
    } else if Bool::spec_of(b[1]) is None {
        Err(FormatError::UnknownVariant(b[1]))
    } else if b.len() < 12 + 1 {
        Err(FormatError::Incomplete)
    } else if EmberNodeType::spec_of(b[12]) is None {
        Err(FormatError::UnknownVariant(b[12]))
    } else if b.len() < 13 {
        Err(FormatError::Incomplete)
    } else if b.len() > 13 {
        Err(FormatError::TooMuchData)
    } else {
        Ok(ResponseV::ChildJoinHandler { index: b[0], joining: Bool::spec_of(b[1]).unwrap(), child_id: rd16(b, 2), child_eui64: rd64(b, 4), child_type: EmberNodeType::spec_of(b[12]).unwrap() })
    }
}

/// The parameters of `TrustCenterJoinHandler`, read.
pub open spec fn parse_trust_center_join_handler(b: Seq<u8>) -> Result<ResponseV, FormatError> {
    if b.len() < 11 + 1 {
        Err(FormatError::Incomplete)
    } else if EmberJoinDecision::spec_of(b[11]) is None {
        Err(FormatError::UnknownVariant(b[11]))
    } else if b.len() < 14 {
        Err(FormatError::Incomplete)
    } else if b.len() > 14 {
        Err(FormatError::TooMuchData)
    } else {
        Ok(ResponseV::TrustCenterJoinHandler { new_node_id: rd16(b, 0), new_node_eui64: rd64(b, 2), statue: b[10], policy_decision: EmberJoinDecision::spec_of(b[11]).unwrap(), parent_of_new_node_id: rd16(b, 12) })
    }
}

/// The parameters of `GetEui64`, read.
pub open spec fn parse_get_eui64(b: Seq<u8>) -> Result<ResponseV, FormatError> {
    if b.len() < 8 {
        Err(FormatError::Incomplete)
    } else if b.len() > 8 {
        Err(FormatError::TooMuchData)
    } else {
        Ok(ResponseV::GetEui64 { eui64: rd64(b, 0) })
    }
}

/// The parameters of `GetNetworkParameters`, read.
pub open spec fn parse_get_network_parameters(b: Seq<u8>) -> Result<ResponseV, FormatError> {
    if b.len() < 1 + 1 {
        Err(FormatError::Incomplete)
    } else if EmberNodeType::spec_of(b[1]) is None {
        Err(FormatError::UnknownVariant(b[1]))
    } else if b.len() < 14 + 1 {
        Err(FormatError::Incomplete)
    } else if EmberJoinMethod::spec_of(b[14]) is None {
        Err(FormatError::UnknownVariant(b[14]))
    } else if b.len() < 22 {
        Err(FormatError::Incomplete)
    } else if b.len() > 22 {
        Err(FormatError::TooMuchData)
    } else {
        Ok(ResponseV::GetNetworkParameters { status: EmberStatus::spec_of(b[0]).unwrap(), node_type: EmberNodeType::spec_of(b[1]).unwrap(), parameters: EmberNetworkParametersV { extended_pan_id: b.subrange(2, 2 + 8int), pan_id: rd16(b, 10), radio_tx_power: b[12], radio_channel: b[13], join_method: EmberJoinMethod::spec_of(b[14]).unwrap(), nwk_manager_id: rd16(b, 15), nwk_update_id: b[17], channels: rd32(b, 18) } })
    }
}

/// The parameters of `SendUnicast`, read.
pub open spec fn parse_send_unicast(b: Seq<u8>) -> Result<ResponseV, FormatError> {
    if b.len() < 2 {
        Err(FormatError::Incomplete)
    } else if b.len() > 2 {
        Err(FormatError::TooMuchData)
    } else {
        Ok(ResponseV::SendUnicast { status: EmberStatus::spec_of(b[0]).unwrap(), sequence: b[1] })
    }
}

/// The parameters of `MessageSentHandler`, read.
pub open spec fn parse_message_sent_handler(b: Seq<u8>) -> Result<ResponseV, FormatError> {
    if b.len() < 17 {
        Err(FormatError::Incomplete)
    } else if b.len() < 17 + b[16] as int {
        Err(FormatError::Incomplete)
    } else if b.len() > 17 + b[16] as int {
        Err(FormatError::TooMuchData)
    } else {
        Ok(ResponseV::MessageSentHandler { message_type: EmberOutgoingMessageType::spec_of(b[0]).unwrap(), index_or_destination: rd16(b, 1), aps_frame: EmberApsFrameV { profile_id: rd16(b, 3), cluster_id: rd16(b, 5), source_endpoint: b[7], destination_endpoint: b[8], options: rd16(b, 9), group_id: rd16(b, 11), sequence: b[13] }, message_tag: b[14], status: EmberStatus::spec_of(b[15]).unwrap(), message_length: b[16], message_contents: b.subrange(17, 17 + b[16] as int) })
    }
}

/// The parameters of `PollHandler`, read.
pub open spec fn parse_poll_handler(b: Seq<u8>) -> Result<ResponseV, FormatError> {
    if b.len() < 2 {
        Err(FormatError::Incomplete)
    } else {
        Ok(ResponseV::PollHandler { child_id: rd16(b, 0), d: b.subrange(2, b.len() as int) })
    }
}

/// The parameters of `IncomingMessageHandler`, read.
pub open spec fn parse_incoming_message_handler(b: Seq<u8>) -> Result<ResponseV, FormatError> {
    if b.len() < 0 + 1 {
        Err(FormatError::Incomplete)
    } else if EmberIncomingMessageType::spec_of(b[0]) is None {
        Err(FormatError::UnknownVariant(b[0]))
    } else if b.len() < 19 {
        Err(FormatError::Incomplete)
    } else if b.len() < 19 + b[18] as int {
        Err(FormatError::Incomplete)
    } else {
        Ok(ResponseV::IncomingMessageHandler { message_type: EmberIncomingMessageType::spec_of(b[0]).unwrap(), aps_frame: EmberApsFrameV { profile_id: rd16(b, 1), cluster_id: rd16(b, 3), source_endpoint: b[5], destination_endpoint: b[6], options: rd16(b, 7), group_id: rd16(b, 9), sequence: b[11] }, last_hop_lqi: b[12], last_hop_rssi: b[13] as i8, sender: rd16(b, 14), binding_index: b[16], address_index: b[17], message_length: b[18], message_contents: b.subrange(19, 19 + b[18] as int), d: b.subrange(19 + b[18] as int, b.len() as int) })
    }
}

/// The parameters of `GetRandomNumber`, read.
pub open spec fn parse_get_random_number(b: Seq<u8>) -> Result<ResponseV, FormatError> {
    if b.len() < 3 {
        Err(FormatError::Incomplete)
    } else if b.len() > 3 {
        Err(FormatError::TooMuchData)
    } else {
        Ok(ResponseV::GetRandomNumber { status: EmberStatus::spec_of(b[0]).unwrap(), value: rd16(b, 1) })
    }
}

/// The parameters of `SetConfigurationValue`, read.
pub open spec fn parse_set_configuration_value(b: Seq<u8>) -> Result<ResponseV, FormatError> {
    if b.len() < 0 + 1 {
        Err(FormatError::Incomplete)
    } else if EzspStatus::spec_of(b[0]) is None {
        Err(FormatError::UnknownVariant(b[0]))
    } else if b.len() < 1 {
        Err(FormatError::Incomplete)
    } else if b.len() > 1 {
        Err(FormatError::TooMuchData)
    } else {
        Ok(ResponseV::SetConfigurationValue { status: EzspStatus::spec_of(b[0]).unwrap() })
    }
}

/// The parameters of `SetPolicy`, read.
pub open spec fn parse_set_policy(b: Seq<u8>) -> Result<ResponseV, FormatError> {
    if b.len() < 0 + 1 {
        Err(FormatError::Incomplete)
    } else if EzspStatus::spec_of(b[0]) is None {
        Err(FormatError::UnknownVariant(b[0]))
    } else if b.len() < 1 {
        Err(FormatError::Incomplete)
    } else if b.len() > 1 {
        Err(FormatError::TooMuchData)
    } else {
        Ok(ResponseV::SetPolicy { status: EzspStatus::spec_of(b[0]).unwrap() })
    }
}

/// The parameters of `IncomingRouteRecordHandler`, read.
pub open spec fn parse_incoming_route_record_handler(b: Seq<u8>) -> Result<ResponseV, FormatError> {
    if b.len() < 0 {
        Err(FormatError::Incomplete)
    } else {
        Ok(ResponseV::IncomingRouteRecordHandler { d: b.subrange(0, b.len() as int) })
    }
}

/// The parameters of `GetAddressTableRemoteNodeId`, read.
pub open spec fn parse_get_address_table_remote_node_id(b: Seq<u8>) -> Result<ResponseV, FormatError> {
    if b.len() < 2 {
        Err(FormatError::Incomplete)
    } else if b.len() > 2 {
        Err(FormatError::TooMuchData)
    } else {
        Ok(ResponseV::GetAddressTableRemoteNodeId { node_id: rd16(b, 0) })
    }
}

/// The parameters of `IncomingSenderEui64Handler`, read.
pub open spec fn parse_incoming_sender_eui64_handler(b: Seq<u8>) -> Result<ResponseV, FormatError> {
    if b.len() < 8 {
        Err(FormatError::Incomplete)
    } else if b.len() > 8 {
        Err(FormatError::TooMuchData)
    } else {
        Ok(ResponseV::IncomingSenderEui64Handler { sender_eui64: rd64(b, 0) })
    }
}

/// The parameters of `SetMulticastTableEntry`, read.
pub open spec fn parse_set_multicast_table_entry(b: Seq<u8>) -> Result<ResponseV, FormatError> {
    if b.len() < 1 {
        Err(FormatError::Incomplete)
    } else if b.len() > 1 {
        Err(FormatError::TooMuchData)
    } else {
        Ok(ResponseV::SetMulticastTableEntry { status: EmberStatus::spec_of(b[0]).unwrap() })
    }
}

/// The parameters of `SetInitialSecurityState`, read.
pub open spec fn parse_set_initial_security_state(b: Seq<u8>) -> Result<ResponseV, FormatError> {
    if b.len() < 1 {
        Err(FormatError::Incomplete)
    } else if b.len() > 1 {
        Err(FormatError::TooMuchData)
    } else {
        Ok(ResponseV::SetInitialSecurityState { status: EmberStatus::spec_of(b[0]).unwrap() })
    }
}

/// The parameters of `GetCurrentSecurityState`, read.
pub open spec fn parse_get_current_security_state(b: Seq<u8>) -> Result<ResponseV, FormatError> {
    if b.len() < 11 {
        Err(FormatError::Incomplete)
    } else if b.len() > 11 {
        Err(FormatError::TooMuchData)
    } else {
        Ok(ResponseV::GetCurrentSecurityState { status: EmberStatus::spec_of(b[0]).unwrap(), state: EmberCurrentSecurityStateV { bitmask: rd16(b, 1), trust_center_long_address: rd64(b, 3) } })
    }
}

/// The parameters of `IncomingRouteErrorHandler`, read.
pub open spec fn parse_incoming_route_error_handler(b: Seq<u8>) -> Result<ResponseV, FormatError> {
    if b.len() < 3 {
        Err(FormatError::Incomplete)
    } else if b.len() > 3 {
        Err(FormatError::TooMuchData)
    } else {
        Ok(ResponseV::IncomingRouteErrorHandler { status: EmberStatus::spec_of(b[0]).unwrap(), target: rd16(b, 1) })
    }
}

/// The parameters of `Echo`, read.
pub open spec fn parse_echo(b: Seq<u8>) -> Result<ResponseV, FormatError> {
    if b.len() < 1 {
        Err(FormatError::Incomplete)
    } else if b.len() < 1 + b[0] as int {
        Err(FormatError::Incomplete)
    } else if b.len() > 1 + b[0] as int {
        Err(FormatError::TooMuchData)
    } else {
        Ok(ResponseV::Echo { count: b[0], data: b.subrange(1, 1 + b[0] as int) })
    }
}

/// The parameters of `ZigbeeKeyEstablishmentHandler`, read.
pub open spec fn parse_zigbee_key_establishment_handler(b: Seq<u8>) -> Result<ResponseV, FormatError> {
    if b.len() < 8 + 1 {
        Err(FormatError::Incomplete)
    } else if EmberKeyStatus::spec_of(b[8]) is None {
        Err(FormatError::UnknownVariant(b[8]))
    } else if b.len() < 9 {
        Err(FormatError::Incomplete)
    } else if b.len() > 9 {
        Err(FormatError::TooMuchData)
    } else {
        Ok(ResponseV::ZigbeeKeyEstablishmentHandler { partner: rd64(b, 0), status: EmberKeyStatus::spec_of(b[8]).unwrap() })
    }
}

/// The parameters of `SetValue`, read.
pub open spec fn parse_set_value(b: Seq<u8>) -> Result<ResponseV, FormatError> {
    if b.len() < 0 + 1 {
        Err(FormatError::Incomplete)
    } else if EzspStatus::spec_of(b[0]) is None {
        Err(FormatError::UnknownVariant(b[0]))
    } else if b.len() < 1 {
        Err(FormatError::Incomplete)
    } else if b.len() > 1 {
        Err(FormatError::TooMuchData)
    } else {
        Ok(ResponseV::SetValue { status: EzspStatus::spec_of(b[0]).unwrap() })
    }
}

fn read_version(b: &[u8]) -> (r: Result<ResponseData, FormatError>)
    ensures
        match parse_version(b@) {
            Ok(v) => r matches Ok(x) && x@ == v,
            Err(e) => r == Err::<ResponseData, FormatError>(e),
        },
{
    let n = b.len();
    if n < 4 {
        return Err(FormatError::Incomplete);
    }
    if n > 4 {
        return Err(FormatError::TooMuchData);
    }
    Ok(ResponseData::Version { protocol_version: b[0], stack_type: b[1], stack_version: read16(b, 2) })
}

fn read_add_endpoint(b: &[u8]) -> (r: Result<ResponseData, FormatError>)
    ensures
        match parse_add_endpoint(b@) {
            Ok(v) => r matches Ok(x) && x@ == v,
            Err(e) => r == Err::<ResponseData, FormatError>(e),
        },
{
    let n = b.len();
    if n < 0 + 1 {
        return Err(FormatError::Incomplete);
    }
    let e0 = match EzspStatus::of(b[0]) {
        Some(x) => x,
        None => return Err(FormatError::UnknownVariant(b[0])),
    };
    if n < 1 {
        return Err(FormatError::Incomplete);
    }
    if n > 1 {
        return Err(FormatError::TooMuchData);
    }
    Ok(ResponseData::AddEndpoint { status: e0 })
}

fn read_nop(b: &[u8]) -> (r: Result<ResponseData, FormatError>)
    ensures
        match parse_nop(b@) {
            Ok(v) => r matches Ok(x) && x@ == v,
            Err(e) => r == Err::<ResponseData, FormatError>(e),
        },
{
    let n = b.len();
    if n < 0 {
        return Err(FormatError::Incomplete);
    }
    if n > 0 {
        return Err(FormatError::TooMuchData);
    }
    Ok(ResponseData::Nop)
}

fn read_stack_token_changed_handler(b: &[u8]) -> (r: Result<ResponseData, FormatError>)
    ensures
        match parse_stack_token_changed_handler(b@) {
            Ok(v) => r matches Ok(x) && x@ == v,
            Err(e) => r == Err::<ResponseData, FormatError>(e),
        },
{
    let n = b.len();
    if n < 2 {
        return Err(FormatError::Incomplete);
    }
    if n > 2 {
        return Err(FormatError::TooMuchData);
    }
    Ok(ResponseData::StackTokenChangedHandler { token_address: read16(b, 0) })
}

fn read_set_concentrator(b: &[u8]) -> (r: Result<ResponseData, FormatError>)
    ensures
        match parse_set_concentrator(b@) {
            Ok(v) => r matches Ok(x) && x@ == v,
            Err(e) => r == Err::<ResponseData, FormatError>(e),
        },
{
    let n = b.len();
    if n < 1 {
        return Err(FormatError::Incomplete);
    }
    if n > 1 {
        return Err(FormatError::TooMuchData);
    }
    let e0 = EmberStatus::of(b[0]).unwrap();
    Ok(ResponseData::SetConcentrator { status: e0 })
}

fn read_network_init(b: &[u8]) -> (r: Result<ResponseData, FormatError>)
    ensures
        match parse_network_init(b@) {
            Ok(v) => r matches Ok(x) && x@ == v,
            Err(e) => r == Err::<ResponseData, FormatError>(e),
        },
{
    let n = b.len();
    if n < 1 {
        return Err(FormatError::Incomplete);
    }
    if n > 1 {
        return Err(FormatError::TooMuchData);
    }
    let e0 = EmberStatus::of(b[0]).unwrap();
    Ok(ResponseData::NetworkInit { status: e0 })
}

fn read_form_network(b: &[u8]) -> (r: Result<ResponseData, FormatError>)
    ensures
        match parse_form_network(b@) {
            Ok(v) => r matches Ok(x) && x@ == v,
            Err(e) => r == Err::<ResponseData, FormatError>(e),
        },
{
    let n = b.len();
    if n < 1 {
        return Err(FormatError::Incomplete);
    }
    if n > 1 {
        return Err(FormatError::TooMuchData);
    }
    let e0 = EmberStatus::of(b[0]).unwrap();
    Ok(ResponseData::FormNetwork { status: e0 })
}

fn read_stack_status_handler(b: &[u8]) -> (r: Result<ResponseData, FormatError>)
    ensures
        match parse_stack_status_handler(b@) {
            Ok(v) => r matches Ok(x) && x@ == v,
            Err(e) => r == Err::<ResponseData, FormatError>(e),
        },
{
    let n = b.len();
    if n < 1 {
        return Err(FormatError::Incomplete);
    }
    if n > 1 {
        return Err(FormatError::TooMuchData);
    }
    let e0 = EmberStatus::of(b[0]).unwrap();
    Ok(ResponseData::StackStatusHandler { status: e0 })
}

fn read_permit_joining(b: &[u8]) -> (r: Result<ResponseData, FormatError>)
    ensures
        match parse_permit_joining(b@) {
            Ok(v) => r matches Ok(x) && x@ == v,
            Err(e) => r == Err::<ResponseData, FormatError>(e),
        },
{
    let n = b.len();
    if n < 1 {
        return Err(FormatError::Incomplete);
    }
    if n > 1 {
        return Err(FormatError::TooMuchData);
    }
    let e0 = EmberStatus::of(b[0]).unwrap();
    Ok(ResponseData::PermitJoining { status: e0 })
}

fn read_child_join_handler(b: &[u8]) -> (r: Result<ResponseData, FormatError>)
    ensures
        match parse_child_join_handler(b@) {
            Ok(v) => r matches Ok(x) && x@ == v,
            Err(e) => r == Err::<ResponseData, FormatError>(e),
        },
{
    let n = b.len();
    if n < 1 + 1 {
        return Err(FormatError::Incomplete);
    }
    let e0 = match Bool::of(b[1]) {
        Some(x) => x,
        None => return Err(FormatError::UnknownVariant(b[1])),
    };
    if n < 12 + 1 {
        return Err(FormatError::Incomplete);
    }
    let e1 = match EmberNodeType::of(b[12]) {
        Some(x) => x,
        None => return Err(FormatError::UnknownVariant(b[12])),
    };
    if n < 13 {
        return Err(FormatError::Incomplete);
    }
    if n > 13 {
        return Err(FormatError::TooMuchData);
    }
    Ok(ResponseData::ChildJoinHandler { index: b[0], joining: e0, child_id: read16(b, 2), child_eui64: read64(b, 4), child_type: e1 })
}

fn read_trust_center_join_handler(b: &[u8]) -> (r: Result<ResponseData, FormatError>)
    ensures
        match parse_trust_center_join_handler(b@) {
            Ok(v) => r matches Ok(x) && x@ == v,
            Err(e) => r == Err::<ResponseData, FormatError>(e),
        },
{
    let n = b.len();
    if n < 11 + 1 {
        return Err(FormatError::Incomplete);
    }
    let e0 = match EmberJoinDecision::of(b[11]) {
        Some(x) => x,
        None => return Err(FormatError::UnknownVariant(b[11])),
    };
    if n < 14 {
        return Err(FormatError::Incomplete);
    }
    if n > 14 {
        return Err(FormatError::TooMuchData);
    }
    Ok(ResponseData::TrustCenterJoinHandler { new_node_id: read16(b, 0), new_node_eui64: read64(b, 2), statue: b[10], policy_decision: e0, parent_of_new_node_id: read16(b, 12) })
}

fn read_get_eui64(b: &[u8]) -> (r: Result<ResponseData, FormatError>)
    ensures
        match parse_get_eui64(b@) {
            Ok(v) => r matches Ok(x) && x@ == v,
            Err(e) => r == Err::<ResponseData, FormatError>(e),
        },
{
    let n = b.len();
    if n < 8 {
        return Err(FormatError::Incomplete);
    }
    if n > 8 {
        return Err(FormatError::TooMuchData);
    }
    Ok(ResponseData::GetEui64 { eui64: read64(b, 0) })
}

fn read_get_network_parameters(b: &[u8]) -> (r: Result<ResponseData, FormatError>)
    ensures
        match parse_get_network_parameters(b@) {
            Ok(v) => r matches Ok(x) && x@ == v,
            Err(e) => r == Err::<ResponseData, FormatError>(e),
        },
{
    let n = b.len();
    if n < 1 + 1 {
        return Err(FormatError::Incomplete);
    }
    let e0 = match EmberNodeType::of(b[1]) {
        Some(x) => x,
        None => return Err(FormatError::UnknownVariant(b[1])),
    };
    if n < 14 + 1 {
        return Err(FormatError::Incomplete);
    }
    let e1 = match EmberJoinMethod::of(b[14]) {
        Some(x) => x,
        None => return Err(FormatError::UnknownVariant(b[14])),
    };
    if n < 22 {
        return Err(FormatError::Incomplete);
    }
    if n > 22 {
        return Err(FormatError::TooMuchData);
    }
    let e2 = EmberStatus::of(b[0]).unwrap();
    let mut a1 = [0u8; 8];
    copy_into(&mut a1, b, 2);
    Ok(ResponseData::GetNetworkParameters { status: e2, node_type: e0, parameters: EmberNetworkParameters { extended_pan_id: a1, pan_id: read16(b, 10), radio_tx_power: b[12], radio_channel: b[13], join_method: e1, nwk_manager_id: read16(b, 15), nwk_update_id: b[17], channels: read32(b, 18) } })
}

fn read_send_unicast(b: &[u8]) -> (r: Result<ResponseData, FormatError>)
    ensures
        match parse_send_unicast(b@) {
            Ok(v) => r matches Ok(x) && x@ == v,
            Err(e) => r == Err::<ResponseData, FormatError>(e),
        },
{
    let n = b.len();
    if n < 2 {
        return Err(FormatError::Incomplete);
    }
    if n > 2 {
        return Err(FormatError::TooMuchData);
    }
    let e0 = EmberStatus::of(b[0]).unwrap();
    Ok(ResponseData::SendUnicast { status: e0, sequence: b[1] })
}

fn read_message_sent_handler(b: &[u8]) -> (r: Result<ResponseData, FormatError>)
    ensures
        match parse_message_sent_handler(b@) {
            Ok(v) => r matches Ok(x) && x@ == v,
            Err(e) => r == Err::<ResponseData, FormatError>(e),
        },
{
    let n = b.len();
    if n < 17 {
        return Err(FormatError::Incomplete);
    }
    if n < 17 + b[16] as usize {
        return Err(FormatError::Incomplete);
    }
    if n > 17 + b[16] as usize {
        return Err(FormatError::TooMuchData);
    }
    let e0 = EmberOutgoingMessageType::of(b[0]).unwrap();
    let e1 = EmberStatus::of(b[15]).unwrap();
    let v2 = vstd::slice::slice_to_vec(&b[17..17 + b[16] as usize]);
    proof {
        assert(v2@ =~= b@.subrange((17) as int, (17 + b[16] as int) as int));
    }
    Ok(ResponseData::MessageSentHandler { message_type: e0, index_or_destination: read16(b, 1), aps_frame: EmberApsFrame { profile_id: read16(b, 3), cluster_id: read16(b, 5), source_endpoint: b[7], destination_endpoint: b[8], options: read16(b, 9), group_id: read16(b, 11), sequence: b[13] }, message_tag: b[14], status: e1, message_length: b[16], message_contents: v2 })
}

fn read_poll_handler(b: &[u8]) -> (r: Result<ResponseData, FormatError>)
    ensures
        match parse_poll_handler(b@) {
            Ok(v) => r matches Ok(x) && x@ == v,
            Err(e) => r == Err::<ResponseData, FormatError>(e),
        },
{
    let n = b.len();
    if n < 2 {
        return Err(FormatError::Incomplete);
    }
    let v0 = vstd::slice::slice_to_vec(&b[2..n]);
    proof {
        assert(v0@ =~= b@.subrange((2) as int, (b@.len() as int) as int));
    }
    Ok(ResponseData::PollHandler { child_id: read16(b, 0), d: v0 })
}

fn read_incoming_message_handler(b: &[u8]) -> (r: Result<ResponseData, FormatError>)
    ensures
        match parse_incoming_message_handler(b@) {
            Ok(v) => r matches Ok(x) && x@ == v,
            Err(e) => r == Err::<ResponseData, FormatError>(e),
        },
{
    let n = b.len();
    if n < 0 + 1 {
        return Err(FormatError::Incomplete);
    }
    let e0 = match EmberIncomingMessageType::of(b[0]) {
        Some(x) => x,
        None => return Err(FormatError::UnknownVariant(b[0])),
    };
    if n < 19 {
        return Err(FormatError::Incomplete);
    }
    if n < 19 + b[18] as usize {
        return Err(FormatError::Incomplete);
    }
    let v0 = vstd::slice::slice_to_vec(&b[19..19 + b[18] as usize]);
    let v1 = vstd::slice::slice_to_vec(&b[19 + b[18] as usize..n]);
    proof {
        assert(v0@ =~= b@.subrange((19) as int, (19 + b[18] as int) as int));
        assert(v1@ =~= b@.subrange((19 + b[18] as int) as int, (b@.len() as int) as int));
    }
    Ok(ResponseData::IncomingMessageHandler { message_type: e0, aps_frame: EmberApsFrame { profile_id: read16(b, 1), cluster_id: read16(b, 3), source_endpoint: b[5], destination_endpoint: b[6], options: read16(b, 7), group_id: read16(b, 9), sequence: b[11] }, last_hop_lqi: b[12], last_hop_rssi: b[13] as i8, sender: read16(b, 14), binding_index: b[16], address_index: b[17], message_length: b[18], message_contents: v0, d: v1 })
}

fn read_get_random_number(b: &[u8]) -> (r: Result<ResponseData, FormatError>)
    ensures
        match parse_get_random_number(b@) {
            Ok(v) => r matches Ok(x) && x@ == v,
            Err(e) => r == Err::<ResponseData, FormatError>(e),
        },
{
    let n = b.len();
    if n < 3 {
        return Err(FormatError::Incomplete);
    }
    if n > 3 {
        return Err(FormatError::TooMuchData);
    }
    let e0 = EmberStatus::of(b[0]).unwrap();
    Ok(ResponseData::GetRandomNumber { status: e0, value: read16(b, 1) })
}

fn read_set_configuration_value(b: &[u8]) -> (r: Result<ResponseData, FormatError>)
    ensures
        match parse_set_configuration_value(b@) {
            Ok(v) => r matches Ok(x) && x@ == v,
            Err(e) => r == Err::<ResponseData, FormatError>(e),
        },
{
    let n = b.len();
    if n < 0 + 1 {
        return Err(FormatError::Incomplete);
    }
    let e0 = match EzspStatus::of(b[0]) {
        Some(x) => x,
        None => return Err(FormatError::UnknownVariant(b[0])),
    };
    if n < 1 {
        return Err(FormatError::Incomplete);
    }
    if n > 1 {
        return Err(FormatError::TooMuchData);
    }
    Ok(ResponseData::SetConfigurationValue { status: e0 })
}

fn read_set_policy(b: &[u8]) -> (r: Result<ResponseData, FormatError>)
    ensures
        match parse_set_policy(b@) {
            Ok(v) => r matches Ok(x) && x@ == v,
            Err(e) => r == Err::<ResponseData, FormatError>(e),
        },
{
    let n = b.len();
    if n < 0 + 1 {
        return Err(FormatError::Incomplete);
    }
    let e0 = match EzspStatus::of(b[0]) {
        Some(x) => x,
        None => return Err(FormatError::UnknownVariant(b[0])),
    };
    if n < 1 {
        return Err(FormatError::Incomplete);
    }
    if n > 1 {
        return Err(FormatError::TooMuchData);
    }
    Ok(ResponseData::SetPolicy { status: e0 })
}

fn read_incoming_route_record_handler(b: &[u8]) -> (r: Result<ResponseData, FormatError>)
    ensures
        match parse_incoming_route_record_handler(b@) {
            Ok(v) => r matches Ok(x) && x@ == v,
            Err(e) => r == Err::<ResponseData, FormatError>(e),
        },
{
    let n = b.len();
    if n < 0 {
        return Err(FormatError::Incomplete);
    }
    let v0 = vstd::slice::slice_to_vec(&b[0..n]);
    proof {
        assert(v0@ =~= b@.subrange((0) as int, (b@.len() as int) as int));
    }
    Ok(ResponseData::IncomingRouteRecordHandler { d: v0 })
}

fn read_get_address_table_remote_node_id(b: &[u8]) -> (r: Result<ResponseData, FormatError>)
    ensures
        match parse_get_address_table_remote_node_id(b@) {
            Ok(v) => r matches Ok(x) && x@ == v,
            Err(e) => r == Err::<ResponseData, FormatError>(e),
        },
{
    let n = b.len();
    if n < 2 {
        return Err(FormatError::Incomplete);
    }
    if n > 2 {
        return Err(FormatError::TooMuchData);
    }
    Ok(ResponseData::GetAddressTableRemoteNodeId { node_id: read16(b, 0) })
}

fn read_incoming_sender_eui64_handler(b: &[u8]) -> (r: Result<ResponseData, FormatError>)
    ensures
        match parse_incoming_sender_eui64_handler(b@) {
            Ok(v) => r matches Ok(x) && x@ == v,
            Err(e) => r == Err::<ResponseData, FormatError>(e),
        },
{
    let n = b.len();
    if n < 8 {
        return Err(FormatError::Incomplete);
    }
    if n > 8 {
        return Err(FormatError::TooMuchData);
    }
    Ok(ResponseData::IncomingSenderEui64Handler { sender_eui64: read64(b, 0) })
}

fn read_set_multicast_table_entry(b: &[u8]) -> (r: Result<ResponseData, FormatError>)
    ensures
        match parse_set_multicast_table_entry(b@) {
            Ok(v) => r matches Ok(x) && x@ == v,
            Err(e) => r == Err::<ResponseData, FormatError>(e),
        },
{
    let n = b.len();
    if n < 1 {
        return Err(FormatError::Incomplete);
    }
    if n > 1 {
        return Err(FormatError::TooMuchData);
    }
    let e0 = EmberStatus::of(b[0]).unwrap();
    Ok(ResponseData::SetMulticastTableEntry { status: e0 })
}

fn read_set_initial_security_state(b: &[u8]) -> (r: Result<ResponseData, FormatError>)
    ensures
        match parse_set_initial_security_state(b@) {
            Ok(v) => r matches Ok(x) && x@ == v,
            Err(e) => r == Err::<ResponseData, FormatError>(e),
        },
{
    let n = b.len();
    if n < 1 {
        return Err(FormatError::Incomplete);
    }
    if n > 1 {
        return Err(FormatError::TooMuchData);
    }
    let e0 = EmberStatus::of(b[0]).unwrap();
    Ok(ResponseData::SetInitialSecurityState { status: e0 })
}

fn read_get_current_security_state(b: &[u8]) -> (r: Result<ResponseData, FormatError>)
    ensures
        match parse_get_current_security_state(b@) {
            Ok(v) => r matches Ok(x) && x@ == v,
            Err(e) => r == Err::<ResponseData, FormatError>(e),
        },
{
    let n = b.len();
    if n < 11 {
        return Err(FormatError::Incomplete);
    }
    if n > 11 {
        return Err(FormatError::TooMuchData);
    }
    let e0 = EmberStatus::of(b[0]).unwrap();
    Ok(ResponseData::GetCurrentSecurityState { status: e0, state: EmberCurrentSecurityState { bitmask: read16(b, 1), trust_center_long_address: read64(b, 3) } })
}

fn read_incoming_route_error_handler(b: &[u8]) -> (r: Result<ResponseData, FormatError>)
    ensures
        match parse_incoming_route_error_handler(b@) {
            Ok(v) => r matches Ok(x) && x@ == v,
            Err(e) => r == Err::<ResponseData, FormatError>(e),
        },
{
    let n = b.len();
    if n < 3 {
        return Err(FormatError::Incomplete);
    }
    if n > 3 {
        return Err(FormatError::TooMuchData);
    }
    let e0 = EmberStatus::of(b[0]).unwrap();
    Ok(ResponseData::IncomingRouteErrorHandler { status: e0, target: read16(b, 1) })
}

fn read_echo(b: &[u8]) -> (r: Result<ResponseData, FormatError>)
    ensures
        match parse_echo(b@) {
            Ok(v) => r matches Ok(x) && x@ == v,
            Err(e) => r == Err::<ResponseData, FormatError>(e),
        },
{
    let n = b.len();
    if n < 1 {
        return Err(FormatError::Incomplete);
    }
    if n < 1 + b[0] as usize {
        return Err(FormatError::Incomplete);
    }
    if n > 1 + b[0] as usize {
        return Err(FormatError::TooMuchData);
    }
    let v0 = vstd::slice::slice_to_vec(&b[1..1 + b[0] as usize]);
    proof {
        assert(v0@ =~= b@.subrange((1) as int, (1 + b[0] as int) as int));
    }
    Ok(ResponseData::Echo { count: b[0], data: v0 })
}

fn read_zigbee_key_establishment_handler(b: &[u8]) -> (r: Result<ResponseData, FormatError>)
    ensures
        match parse_zigbee_key_establishment_handler(b@) {
            Ok(v) => r matches Ok(x) && x@ == v,
            Err(e) => r == Err::<ResponseData, FormatError>(e),
        },
{
    let n = b.len();
    if n < 8 + 1 {
        return Err(FormatError::Incomplete);
    }
    let e0 = match EmberKeyStatus::of(b[8]) {
        Some(x) => x,
        None => return Err(FormatError::UnknownVariant(b[8])),
    };
    if n < 9 {
        return Err(FormatError::Incomplete);
    }
    if n > 9 {
        return Err(FormatError::TooMuchData);
    }
    Ok(ResponseData::ZigbeeKeyEstablishmentHandler { partner: read64(b, 0), status: e0 })
}

fn read_set_value(b: &[u8]) -> (r: Result<ResponseData, FormatError>)
    ensures
        match parse_set_value(b@) {
            Ok(v) => r matches Ok(x) && x@ == v,
            Err(e) => r == Err::<ResponseData, FormatError>(e),
        },
{
    let n = b.len();
    if n < 0 + 1 {
        return Err(FormatError::Incomplete);
    }
    let e0 = match EzspStatus::of(b[0]) {
        Some(x) => x,
        None => return Err(FormatError::UnknownVariant(b[0])),
    };
    if n < 1 {
        return Err(FormatError::Incomplete);
    }
    if n > 1 {
        return Err(FormatError::TooMuchData);
    }
    Ok(ResponseData::SetValue { status: e0 })
}

/// A response read from its frame identifier and parameter bytes: by
/// the first variant with that identifier; an identifier none has is
/// refused.
pub open spec fn response_parse(id: u16, b: Seq<u8>) -> Result<ResponseV, FormatError> {
    if id == 0x0000 {
        parse_version(b)
    } else if id == 0x0002 {
        parse_add_endpoint(b)
    } else if id == 0x0005 {
        parse_nop(b)
    } else if id == 0x000d {
        parse_stack_token_changed_handler(b)
    } else if id == 0x0010 {
        parse_set_concentrator(b)
    } else if id == 0x0017 {
        parse_network_init(b)
    } else if id == 0x001e {
        parse_form_network(b)
    } else if id == 0x0019 {
        parse_stack_status_handler(b)
    } else if id == 0x0022 {
        parse_permit_joining(b)
    } else if id == 0x0023 {
        parse_child_join_handler(b)
    } else if id == 0x0024 {
        parse_trust_center_join_handler(b)
    } else if id == 0x0026 {
        parse_get_eui64(b)
    } else if id == 0x0028 {
        parse_get_network_parameters(b)
    } else if id == 0x0034 {
        parse_send_unicast(b)
    } else if id == 0x003f {
        parse_message_sent_handler(b)
    } else if id == 0x0044 {
        parse_poll_handler(b)
    } else if id == 0x0045 {
        parse_incoming_message_handler(b)
    } else if id == 0x0049 {
        parse_get_random_number(b)
    } else if id == 0x0053 {
        parse_set_configuration_value(b)
    } else if id == 0x0055 {
        parse_set_policy(b)
    } else if id == 0x0059 {
        parse_incoming_route_record_handler(b)
    } else if id == 0x005f {
        parse_get_address_table_remote_node_id(b)
    } else if id == 0x0062 {
        parse_incoming_sender_eui64_handler(b)
    } else if id == 0x0064 {
        parse_set_multicast_table_entry(b)
    } else if id == 0x0068 {
        parse_set_initial_security_state(b)
    } else if id == 0x0069 {
        parse_get_current_security_state(b)
    } else if id == 0x0081 {
        parse_incoming_route_error_handler(b)
    } else if id == 0x009b {
        parse_zigbee_key_establishment_handler(b)
    } else if id == 0x00ab {
        parse_set_value(b)
    } else {
        Err(FormatError::UnknownFrameId(id))
    }
}

impl ResponseData {
    /// Reads a response, as `response_parse` says.
    pub fn from_raw(raw: &RawResponse) -> (r: Result<ResponseData, FormatError>)
        ensures
            match response_parse(raw@.0, raw@.1) {
                Ok(v) => r matches Ok(x) && x@ == v,
                Err(e) => r == Err::<ResponseData, FormatError>(e),
            },
    {
        let b = raw.params.as_slice();
        let id = raw.frame_id;
        if id == 0x0000 {
            read_version(b)
        } else if id == 0x0002 {
            read_add_endpoint(b)
        } else if id == 0x0005 {
            read_nop(b)
        } else if id == 0x000d {
            read_stack_token_changed_handler(b)
        } else if id == 0x0010 {
            read_set_concentrator(b)
        } else if id == 0x0017 {
            read_network_init(b)
        } else if id == 0x001e {
            read_form_network(b)
        } else if id == 0x0019 {
            read_stack_status_handler(b)
        } else if id == 0x0022 {
            read_permit_joining(b)
        } else if id == 0x0023 {
            read_child_join_handler(b)
        } else if id == 0x0024 {
            read_trust_center_join_handler(b)
        } else if id == 0x0026 {
            read_get_eui64(b)
        } else if id == 0x0028 {
            read_get_network_parameters(b)
        } else if id == 0x0034 {
            read_send_unicast(b)
        } else if id == 0x003f {
            read_message_sent_handler(b)
        } else if id == 0x0044 {
            read_poll_handler(b)
        } else if id == 0x0045 {
            read_incoming_message_handler(b)
        } else if id == 0x0049 {
            read_get_random_number(b)
        } else if id == 0x0053 {
            read_set_configuration_value(b)
        } else if id == 0x0055 {
            read_set_policy(b)
        } else if id == 0x0059 {
            read_incoming_route_record_handler(b)
        } else if id == 0x005f {
            read_get_address_table_remote_node_id(b)
        } else if id == 0x0062 {
            read_incoming_sender_eui64_handler(b)
        } else if id == 0x0064 {
            read_set_multicast_table_entry(b)
        } else if id == 0x0068 {
            read_set_initial_security_state(b)
        } else if id == 0x0069 {
            read_get_current_security_state(b)
        } else if id == 0x0081 {
            read_incoming_route_error_handler(b)
        } else if id == 0x009b {
            read_zigbee_key_establishment_handler(b)
        } else if id == 0x00ab {
            read_set_value(b)
        } else {
            Err(FormatError::UnknownFrameId(id))
        }
    }
}

/// The parameters of the configuration commands follow their fields in
/// order: a policy is set by the policy's identifier byte, then the
/// decision's; a configuration value by the value's identifier byte, then
/// the 16-bit value, least significant byte first; a value by its
/// identifier byte, its length byte, then its bytes.
pub proof fn lemma_config_command_fields(
    p: EzspPolicyId,
    d: EzspDecisionId,
    c: EzspConfigId,
    v: u16,
    vid: EzspValueId,
    vl: u8,
    val: Seq<u8>,
)
    ensures
        command_id(CommandV::SetPolicy { policy_id: p, decision_id: d }) == 0x0055,
        command_params(CommandV::SetPolicy { policy_id: p, decision_id: d }).len() == 2,
        command_params(CommandV::SetPolicy { policy_id: p, decision_id: d })[0] == p.spec_id(),
        command_params(CommandV::SetPolicy { policy_id: p, decision_id: d })[1] == d.spec_id(),
        command_params(CommandV::SetConfigurationValue { config_id: c, value: v }) == seq![
            c.spec_id(),
            (v % 256) as u8,
            (v / 256) as u8,
        ],
        command_params(CommandV::SetValue { value_id: vid, value_length: vl, value: val })
            == seq![vid.spec_id(), vl] + val,
        EzspPolicyId::EzspBindingModificationPolicy.spec_id() == 0x01,
        EzspDecisionId::EzspCheckBindingModificationsAreValidEndpointClusters.spec_id() == 0x12,
{
    assert(seq![p.spec_id()] + seq![d.spec_id()] =~= seq![p.spec_id(), d.spec_id()]);
    assert(seq![c.spec_id()] + le16(v) =~= seq![c.spec_id(), (v % 256) as u8, (v / 256) as u8]);
    assert(seq![vid.spec_id()] + seq![vl] + val =~= seq![vid.spec_id(), vl] + val);
}

} // verus!
