//! Verified core of an Art-Net to DMX512 / WS281x node.
pub mod bytes;
pub mod artnet;
pub mod schema;
pub mod artnet_task;
pub mod led_task;
pub mod dmx_task;
pub mod dmx_output;
pub mod dmx_pio;
pub mod net;
pub mod storage;
pub mod system;
pub mod button_task;
pub mod web_task;
pub mod log;

