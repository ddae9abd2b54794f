//! What the web interface's messages do to the node's configuration, and the per-port
//! data it reports.
use vstd::prelude::*;
use crate::artnet::dmx::zeros;
use crate::artnet_task::ArtnetSource;
use crate::bytes::copy_range;
use crate::schema::{
    ArtnetConfig, ArtnetConfigUpdateItem, DmxPortConfig, DmxPortConfigUpdateItem, LedPortConfig,
    LedPortConfigUpdateItem, NetworkConfig, NetworkConfigUpdateItem, SourceDevice, SourceDevices,
    SourceName, MAX_PIXELS_PER_LED_PORT, NUM_LED_PORTS,
};
use crate::storage::file_system::{save_and_reboot, save_config, SettingsStoreSignal};
use vstd::utf8::valid_utf8;

verus! {

/// Number of DMX ports
pub const NUM_DMX_PORTS: usize = 4;

/// Apply a DMX port configuration update: the first four items set mode, universe,
/// merge mode and output rate of ports 0..3; sources and failsafe flags stay.
pub fn apply_dmx_port_updates(port_config: &mut [DmxPortConfig; 4], updates: &[DmxPortConfigUpdateItem])
    ensures
        forall|i: int|
            0 <= i < 4 ==> {
                let old_p = old(port_config)@[i];
                let new_p = #[trigger] final(port_config)@[i];
                &&& new_p.source_devices == old_p.source_devices
                &&& new_p.has_failsafe == old_p.has_failsafe
                &&& if i < updates@.len() {
                    &&& new_p.mode == updates@[i].mode
                    &&& new_p.universe == updates@[i].universe
                    &&& new_p.merge_mode == updates@[i].merge_mode
                    &&& new_p.output_rate == updates@[i].output_rate
                } else {
                    new_p == old_p
                }
            },
{
    let n = updates.len();
    let ghost start = *port_config;
    for i in 0..n
        invariant
            n == updates@.len(),
            forall|j: int|
                0 <= j < 4 ==> {
                    let old_p = start@[j];
                    let new_p = #[trigger] port_config@[j];
                    &&& new_p.source_devices == old_p.source_devices
                    &&& new_p.has_failsafe == old_p.has_failsafe
                    &&& if j < i && j < updates@.len() {
                        &&& new_p.mode == updates@[j].mode
                        &&& new_p.universe == updates@[j].universe
                        &&& new_p.merge_mode == updates@[j].merge_mode
                        &&& new_p.output_rate == updates@[j].output_rate
                    } else {
                        new_p == old_p
                    }
                },
    {
        if i < 4 {
            let port_update = &updates[i];
            port_config[i].mode = port_update.mode;
            port_config[i].universe = port_update.universe;
            port_config[i].merge_mode = port_update.merge_mode;
            port_config[i].output_rate = port_update.output_rate;
        }
    }
}

/// Apply an LED port configuration update to outputs 0..3. The pixel count is clamped
/// to `MAX_PIXELS_PER_LED_PORT` and the start address to 1..=512, so a bad value from
/// the UI cannot make an output index past its buffer.
pub fn apply_led_port_updates(led_config: &mut [LedPortConfig; 4], updates: &[LedPortConfigUpdateItem])
    ensures
        forall|i: int|
            0 <= i < 4 ==> {
                let new_p = #[trigger] final(led_config)@[i];
                if i < updates@.len() {
                    let u = updates@[i];
                    &&& new_p.mode == u.mode
                    &&& new_p.start_universe == u.start_universe
                    &&& new_p.pixel_count == (if u.pixel_count < MAX_PIXELS_PER_LED_PORT {
                        u.pixel_count
                    } else {
                        MAX_PIXELS_PER_LED_PORT as u16
                    })
                    &&& new_p.start_address == (if u.start_address < 1 {
                        1
                    } else if u.start_address > 512 {
                        512
                    } else {
                        u.start_address
                    })
                    &&& new_p.color_order == u.color_order
                    &&& new_p.brightness_cap == u.brightness_cap
                    &&& new_p.reverse == u.reverse
                } else {
                    new_p == old(led_config)@[i]
                }
            },
{
    let n = updates.len();
    let ghost start = *led_config;
    for i in 0..n
        invariant
            n == updates@.len(),
            forall|j: int|
                0 <= j < 4 ==> {
                    let new_p = #[trigger] led_config@[j];
                    if j < i && j < updates@.len() {
                        let u = updates@[j];
                        &&& new_p.mode == u.mode
                        &&& new_p.start_universe == u.start_universe
                        &&& new_p.pixel_count == (if u.pixel_count < MAX_PIXELS_PER_LED_PORT {
                            u.pixel_count
                        } else {
                            MAX_PIXELS_PER_LED_PORT as u16
                        })
                        &&& new_p.start_address == (if u.start_address < 1 {
                            1
                        } else if u.start_address > 512 {
                            512
                        } else {
                            u.start_address
                        })
                        &&& new_p.color_order == u.color_order
                        &&& new_p.brightness_cap == u.brightness_cap
                        &&& new_p.reverse == u.reverse
                    } else {
                        new_p == start@[j]
                    }
                },
    {
        if i < NUM_LED_PORTS {
            let port_update = &updates[i];
            let max_pixels = MAX_PIXELS_PER_LED_PORT as u16;
            let pixel_count = if port_update.pixel_count < max_pixels {
                port_update.pixel_count
            } else {
                max_pixels
            };
            let start_address = if port_update.start_address < 1 {
                1
            } else if port_update.start_address > 512 {
                512
            } else {
                port_update.start_address
            };
            led_config[i].mode = port_update.mode;
            led_config[i].start_universe = port_update.start_universe;
            led_config[i].pixel_count = pixel_count;
            led_config[i].start_address = start_address;
            led_config[i].color_order = port_update.color_order;
            led_config[i].brightness_cap = port_update.brightness_cap;
            led_config[i].reverse = port_update.reverse;
        }
    }
}

/// Apply a network configuration update: address mode, address, mask and gateway are
/// replaced; the id, MAC address and current_* fields are read-only and stay.
pub fn apply_network_update(network_config: &mut NetworkConfig, update: &NetworkConfigUpdateItem)
    ensures
        final(network_config).ip_config_type == update.ip_config_type,
        final(network_config).ip_address == update.ip_address,
        final(network_config).subnet_mask == update.subnet_mask,
        final(network_config).gateway == update.gateway,
        final(network_config).id == old(network_config).id,
        final(network_config).mac_address == old(network_config).mac_address,
        final(network_config).current_ip_address == old(network_config).current_ip_address,
        final(network_config).current_subnet_mask == old(network_config).current_subnet_mask,
        final(network_config).current_gateway == old(network_config).current_gateway,
{
    network_config.ip_config_type = update.ip_config_type;
    network_config.ip_address = update.ip_address;
    network_config.subnet_mask = update.subnet_mask;
    network_config.gateway = update.gateway;
}

/// Apply an Art-Net configuration update: Net, Sub-Net and device name are replaced;
/// the id is read-only and stays.
pub fn apply_artnet_update(artnet_config: &mut ArtnetConfig, update: ArtnetConfigUpdateItem)
    ensures
        final(artnet_config).net == update.net,
        final(artnet_config).subnet == update.subnet,
        final(artnet_config).device_name@ == update.device_name@,
        final(artnet_config).id == old(artnet_config).id,
{
    artnet_config.net = update.net;
    artnet_config.subnet = update.subnet;
    artnet_config.device_name = update.device_name;
}

/// Store the current output of DMX port `port_number` as its failsafe scene. Returns
/// whether a scene was stored, i.e. whether the port exists.
pub fn set_failsafe(
    stored: &mut [bool; 4],
    data: &mut [[u8; 512]; 4],
    dmx_buffer: &[[u8; 513]; 4],
    port_number: u8,
) -> (r: bool)
    ensures
        r == (port_number < 4),
        forall|p: int|
            0 <= p < 4 ==> if p == port_number {
                &&& #[trigger] final(stored)@[p]
                &&& final(data)@[p]@ == dmx_buffer@[p]@.skip(1)
            } else {
                &&& final(stored)@[p] == old(stored)@[p]
                &&& final(data)@[p] == old(data)@[p]
            },
{
    let port_index = port_number as usize;
    if port_index >= 4 {
        return false;
    }
    copy_range(&mut data[port_index], 0, &dmx_buffer[port_index], 1, 512);
    assert(data@[port_index as int]@ =~= dmx_buffer@[port_index as int]@.skip(1));
    stored[port_index] = true;
    true
}

/// Delete the failsafe scene of DMX port `port_number`: its flag is cleared and its
/// channels zeroed. Returns whether the port exists.
pub fn delete_failsafe(stored: &mut [bool; 4], data: &mut [[u8; 512]; 4], port_number: u8) -> (r: bool)
    ensures
        r == (port_number < 4),
        forall|p: int|
            0 <= p < 4 ==> if p == port_number {
                &&& !(#[trigger] final(stored)@[p])
                &&& final(data)@[p]@ == zeros(512)
            } else {
                &&& final(stored)@[p] == old(stored)@[p]
                &&& final(data)@[p] == old(data)@[p]
            },
{
    let port_index = port_number as usize;
    if port_index >= 4 {
        return false;
    }
    stored[port_index] = false;
    data[port_index] = [0u8; 512];
    assert(data@[port_index as int]@ =~= zeros(512));
    true
}

/// Clear every failsafe scene.
pub fn clear_failsafe(stored: &mut [bool; 4], data: &mut [[u8; 512]; 4])
    ensures
        forall|p: int|
            #![trigger final(stored)@[p]]
            #![trigger final(data)@[p]]
            0 <= p < 4 ==> !final(stored)@[p] && final(data)@[p]@ == zeros(512),
{
    *stored = [false; 4];
    *data = [[0u8; 512]; 4];
    assert forall|p: int| 0 <= p < 4 implies !(#[trigger] stored@[p]) && data@[p]@ == zeros(512) by {
        assert(data@[p]@ =~= zeros(512));
    }
}

/// Reset to defaults: DMX ports become `default_with_universe(i)`, the Art-Net
/// configuration its default, every failsafe scene is cleared; the network
/// configuration is kept. Returns the request to save the settings.
pub fn reset_to_defaults(
    dmx_config: &mut [DmxPortConfig; 4],
    artnet_config: &mut ArtnetConfig,
    stored: &mut [bool; 4],
    data: &mut [[u8; 512]; 4],
) -> (r: SettingsStoreSignal)
    ensures
        r == SettingsStoreSignal::Save,
        forall|i: int|
            0 <= i < 4 ==> {
                let p = #[trigger] final(dmx_config)@[i];
                &&& p.mode == crate::schema::PortMode::Active
                &&& p.universe == i
                &&& p.merge_mode == crate::schema::MergeMode::Htp
                &&& p.output_rate == crate::schema::OutputRate::Hz44
                &&& p.source_devices@.len() == 0
                &&& !p.has_failsafe
            },
        final(artnet_config).id is None,
        final(artnet_config).net == 0,
        final(artnet_config).subnet == 0,
        final(artnet_config).device_name@ == crate::schema::default_device_name(),
        forall|p: int|
            #![trigger final(stored)@[p]]
            #![trigger final(data)@[p]]
            0 <= p < 4 ==> !final(stored)@[p] && final(data)@[p]@ == zeros(512),
{
    *dmx_config = [
        DmxPortConfig::default_with_universe(0),
        DmxPortConfig::default_with_universe(1),
        DmxPortConfig::default_with_universe(2),
        DmxPortConfig::default_with_universe(3),
    ];
    *artnet_config = ArtnetConfig::default();
    clear_failsafe(stored, data);
    save_config()
}

/// Factory reset: as `reset_to_defaults`, and the network configuration becomes
/// `network_defaults` as well. Returns the request to save the settings and reboot.
pub fn factory_reset(
    dmx_config: &mut [DmxPortConfig; 4],
    artnet_config: &mut ArtnetConfig,
    network_config: &mut NetworkConfig,
    network_defaults: NetworkConfig,
    stored: &mut [bool; 4],
    data: &mut [[u8; 512]; 4],
) -> (r: SettingsStoreSignal)
    ensures
        r == SettingsStoreSignal::SaveAndReboot,
        forall|i: int|
            0 <= i < 4 ==> {
                let p = #[trigger] final(dmx_config)@[i];
                &&& p.mode == crate::schema::PortMode::Active
                &&& p.universe == i
                &&& p.merge_mode == crate::schema::MergeMode::Htp
                &&& p.output_rate == crate::schema::OutputRate::Hz44
                &&& p.source_devices@.len() == 0
                &&& !p.has_failsafe
            },
        final(artnet_config).id is None,
        final(artnet_config).net == 0,
        final(artnet_config).subnet == 0,
        final(artnet_config).device_name@ == crate::schema::default_device_name(),
        *final(network_config) == network_defaults,
        forall|p: int|
            #![trigger final(stored)@[p]]
            #![trigger final(data)@[p]]
            0 <= p < 4 ==> !final(stored)@[p] && final(data)@[p]@ == zeros(512),
{
    let _ = reset_to_defaults(dmx_config, artnet_config, stored, data);
    *network_config = network_defaults;
    save_and_reboot()
}

/// The sources shown for a port: its active sources, in slot order, each named by its
/// 17-byte name field when that is valid UTF-8 (the empty name otherwise), with its
/// address, packet rate and physical input.
pub fn source_devices(sources: &[ArtnetSource; 2]) -> (r: SourceDevices)
    ensures
        r@.len() == (if sources@[0].active { 1int } else { 0 }) + (if sources@[1].active { 1int } else { 0 }),
        forall|k: int|
            0 <= k < r@.len() ==> {
                let s = if k == 0 && sources@[0].active { sources@[0] } else { sources@[1] };
                &&& (#[trigger] r@[k]).name@ == shown_source_name(s.name@)
                &&& r@[k].ip == s.ip
                &&& r@[k].packets_per_second == Some(s.frequency)
                &&& r@[k].physical == s.last_packet_physical
            },
{
    let mut out = SourceDevices::new();
    for i in 0..2usize
        invariant
            out@.len() == (if i > 0 && sources@[0].active { 1int } else { 0 }) + (if i > 1 && sources@[1].active { 1int } else { 0 }),
            forall|k: int|
                0 <= k < out@.len() ==> {
                    let s = if k == 0 && sources@[0].active { sources@[0] } else { sources@[1] };
                    &&& (#[trigger] out@[k]).name@ == shown_source_name(s.name@)
                    &&& out@[k].ip == s.ip
                    &&& out@[k].packets_per_second == Some(s.frequency)
                    &&& out@[k].physical == s.last_packet_physical
                },
    {
        let source = &sources[i];
        if source.active {
            let device = SourceDevice {
                name: SourceName::from_field(&source.name),
                ip: source.ip,
                packets_per_second: Some(source.frequency),
                physical: source.last_packet_physical,
            };
            let _ = out.push(device);
        }
    }
    out
}

/// The name shown for a 17-byte name field: the field itself when it is valid UTF-8,
/// the empty name otherwise.
pub open spec fn shown_source_name(field: Seq<u8>) -> Seq<u8> {
    if valid_utf8(field) { field } else { Seq::<u8>::empty() }
}

/// The 512 channels of a port's output frame, as sent to the web UI.
pub fn dmx_output_channels(frame: &[u8; 513]) -> (r: Vec<u8>)
    ensures
        r@ == frame@.skip(1),
{
    let mut out: Vec<u8> = Vec::new();
    crate::bytes::push_slice(&mut out, vstd::slice::slice_subrange(frame.as_slice(), 1, 513));
    assert(frame@.subrange(1, 513) =~= frame@.skip(1));
    out
}

/// Websocket update slot after `slot`: 0..3 send one DMX port's data each, 4 the full
/// state; the cycle wraps after 4.
pub fn next_update_slot(slot: u8) -> (r: u8)
    requires
        slot <= 4,
    ensures
        r == (slot + 1) % 5,
{
    (slot + 1) % 5
}

} // verus!
