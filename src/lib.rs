//! Host side of the ASTM E1381 link protocol and the ASTM E1394 record layer.
//!
//! The modules go from the wire upwards: control bytes, checksums, frames,
//! records and their fields, and the link state machine that a session drives.

pub mod checksum;
pub mod control;
pub mod fields;
pub mod frame;
pub mod link;
pub mod message;
pub mod record;
pub mod session;
pub mod typed;

pub use checksum::{checksum, checksum_of_region, hex_pair};
pub use frame::{decode_frame, encode_frame, encode_message, DecodedFrame, FrameError};
pub use link::{Link, LinkAction, LinkConfig, LinkEvent, LinkNotice, LinkState};
pub use message::{field_in_message, is_complete_message, records_from_payload, split_to_records};
pub use record::{Delimiters, Record, RecordError, RecordKind};
pub use session::{next_event, poll_decision, probe_reply_compliant, PollAction, Session};
pub use typed::{
    Comment, Header, ManufacturerInformation, MessageTerminator, Patient, RequestInformation,
    ResultR, Scientific, TestOrder,
};
