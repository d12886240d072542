//! Wire protocol and transport logic for streaming gamepad and mouse state
//! from a handheld device to a remote host.
//!
//! The sampling side turns each tick into packets ([`detect`]), hands them
//! through a bounded relay ([`relay`]) to its sending session ([`server`]),
//! which writes each packet as one frame of sixteen bytes ([`codec`]). The
//! replaying side reads the stream, cuts it into frames ([`stream`]) in its
//! receiving session ([`client`]), decodes them, and turns the packets into
//! events for a virtual device ([`replay`]).
//!
//! Nothing here touches a socket, a clock or a device: the sessions say
//! which action is due and take what happened as events.

pub mod client;
pub mod codec;
pub mod config;
pub mod detect;
pub mod error;
pub mod gamepad;
pub mod mouse;
pub mod packet;
pub mod relay;
pub mod replay;
pub mod server;
pub mod session;
pub mod stream;
pub mod wire;

pub use client::{Client, ClientAction, ClientEvent, ClientModel, ClientState};
pub use codec::{
    decode, deserialize, encode, serialize, DeserializableGamepad, DeserializablePacket,
    SerializableGamepad, SerializablePacket,
};
pub use config::Config;
pub use detect::{ChangeDetector, Replayed};
pub use error::{check_handle, Error};
pub use gamepad::{has_flag, XButtons, XGamepad};
pub use mouse::{Mouse, MouseButton};
pub use packet::{Packet, PACKET_FRAME_SIZE, PORT};
pub use relay::{BoundedRelay, RelayState, RELAY_CAPACITY};
pub use replay::{
    AbsoluteAxis, ButtonChange, InputEvent, Key, MouseController, MouseInput, RelativeAxis,
    VirtualGamepad, VirtualMouse,
};
pub use server::{Server, ServerAction, ServerEvent, ServerModel, ServerState};
pub use stream::{decode_frames, FrameAssembler};
