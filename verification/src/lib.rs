//! Decision logic of the LoL highlight recorder: event detection, clip scoring,
//! clip windows and recording readiness, specified and proved with Verus.

pub mod text;
pub mod highlight;
pub mod ranking;
pub mod live_events;
pub mod detector;
pub mod audio;
pub mod encoding;
pub mod clip_rules;
pub mod readiness;
pub mod segments;
pub mod ffmpeg_args;
pub mod lifecycle;
pub mod game_monitor;
pub mod mac;
pub mod mac_audio;
pub mod control;
pub mod recorder;
