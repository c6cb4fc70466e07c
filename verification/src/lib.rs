//! Live user-interface event pipeline: normalizes raw accessibility
//! notifications into a uniform `UiEvent` schema, serializes each event to
//! its canonical JSON wire form, and distributes the serialized frames to
//! any number of subscribers through a bounded, non-blocking fan-out bus.
//!
//! The crate holds the verified core of the pipeline: the event schema and
//! its codec, the normalizer, the bounded ingest queue, the fan-out bus
//! with its per-subscriber drop-oldest rings, the broadcaster step, and
//! the per-connection session state machine. Platform callbacks and
//! network I/O live outside, feeding this core plain values and carrying
//! out the actions it decides.
use vstd::prelude::*;

mod broadcast;
mod bus;
mod codec;
mod decode;
mod event;
mod ingest;
mod listener;
mod normalize;
mod ring;
mod session;
mod text;

pub use broadcast::broadcast_step;
pub use broadcast::pump_step;
pub use bus::BusModel;
pub use bus::FanoutBus;
pub use bus::SubscriberModel;
pub use bus::bus_model_wf;
pub use bus::lemma_full_subscriber_keeps_receiving;
pub use bus::lemma_publish_reaches_every_active;
pub use bus::lemma_publish_skips_inactive;
pub use bus::lemma_publish_without_subscribers;
pub use bus::spec_publish;
pub use codec::event_type_name;
pub use codec::serialize;
pub use codec::spec_escape;
pub use codec::spec_escape_char;
pub use codec::spec_event_type_name;
pub use codec::spec_int;
pub use codec::spec_quoted;
pub use codec::spec_ser_application;
pub use codec::spec_ser_element;
pub use codec::spec_ser_json;
pub use codec::spec_ser_window;
pub use codec::spec_serialize;
pub use codec::spec_udigits;
pub use decode::canon_event;
pub use decode::canonical_event;
pub use decode::deserialize;
pub use decode::lemma_deserialize_of_serialize;
pub use decode::lemma_round_trip;
pub use decode::lemma_round_trip_event;
pub use decode::spec_deserialize;
pub use event::ApplicationInfo;
pub use event::ApplicationInfoModel;
pub use event::ElementDetails;
pub use event::ElementDetailsModel;
pub use event::EventType;
pub use event::JsonValue;
pub use event::JsonValueModel;
pub use event::Position;
pub use event::PositionModel;
pub use event::Size;
pub use event::SizeModel;
pub use event::UiEvent;
pub use event::UiEventModel;
pub use event::WindowInfo;
pub use event::WindowInfoModel;
pub use event::i64_range;
pub use event::lemma_view_wf;
pub use event::pid_range;
pub use event::wf_application;
pub use event::wf_element;
pub use event::wf_event;
pub use event::wf_json_value;
pub use event::wf_position;
pub use event::wf_size;
pub use event::view_opt_string;
pub use ingest::DEFAULT_INGEST_CAPACITY;
pub use ingest::IngestQueue;
pub use ingest::lemma_enqueue_keeps_order;
pub use ingest::lemma_full_queue_drops;
pub use ingest::spec_offer;
pub use ingest::spec_offer_all;
pub use listener::LinuxListener;
pub use listener::ListenerError;
pub use listener::MacosListener;
pub use listener::PlatformListener;
pub use listener::WindowsListener;
pub use normalize::AncestorFacts;
pub use normalize::AncestorFactsModel;
pub use normalize::ElementSnapshot;
pub use normalize::ElementSnapshotModel;
pub use normalize::Normalizer;
pub use normalize::RawValue;
pub use normalize::RawValueModel;
pub use normalize::activation_matches;
pub use normalize::details_match;
pub use normalize::event_matches_snapshot;
pub use normalize::rfc3339_of;
pub use normalize::role_is_window;
pub use normalize::spec_application;
pub use normalize::spec_event_type_of_notification;
pub use normalize::spec_first_window_ancestor;
pub use normalize::spec_identifier;
pub use normalize::spec_nonempty;
pub use normalize::spec_window;
pub use normalize::spec_window_from_title;
pub use normalize::spec_window_role;
pub use normalize::value_matches_raw;
pub use normalize::activation_event;
pub use normalize::event_type_for_notification;
pub use normalize::extract_details;
pub use normalize::lemma_stamps_monotonic;
pub use normalize::normalize;
pub use normalize::nonempty;
pub use normalize::raw_value_to_json;
pub use normalize::resolve_window;
pub use normalize::spec_stamp;
pub use ring::FrameRing;
pub use ring::ring_index;
pub use ring::spec_push_drop_oldest;
pub use session::Session;
pub use session::SessionAction;
pub use session::SessionInput;
pub use session::SessionState;
pub use session::lemma_closed_is_terminal;
pub use session::lemma_peer_close_reaches_closed;
pub use session::session_step;
pub use session::spec_session_step;
pub use text::str_eq;

verus! {

} // verus!
