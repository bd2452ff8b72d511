//! The settings of the surrounding control loop.

use vstd::prelude::*;
use crate::binary32::at_least;
use crate::binary32::is_at_least;
use crate::binary32::is_less;
use crate::binary32::lemma_whole_between_fifty_and_thousand;
use crate::binary32::lemma_whole_between_ten_and_two_thousand;
use crate::binary32::less;
use crate::binary32::to_whole;
use crate::binary32::whole;
use crate::binary32::FIFTY;
use crate::binary32::ONE;
use crate::binary32::TEN;
use crate::binary32::THOUSAND;
use crate::binary32::TWO_THOUSAND;
use crate::cmd::KeyCMD;

verus! {

broadcast use vstd::string::group_string_axioms;

/// Pacing of the control loop and what it reports.
#[derive(Copy, Clone, Debug, PartialEq, Eq, Structural)]
pub struct Conf {
    pub loop_ms: u64,
    pub i2c_sleep_us: u64,
    pub is_print_serial: bool,
    pub is_send_mqtt: bool,
    pub is_mqtt_conf: bool,
    pub is_fire_water: bool,
    pub is_stream_q: bool,
    pub is_stream_states: bool,
    pub is_stream_current: bool,
    pub is_stream_time: bool,
}

/// The settings that a driver starts with.
pub open spec fn initial_conf() -> Conf {
    Conf {
        loop_ms: 2000,
        i2c_sleep_us: 250,
        is_print_serial: true,
        is_send_mqtt: false,
        is_mqtt_conf: true,
        is_fire_water: false,
        is_stream_q: false,
        is_stream_states: true,
        is_stream_current: false,
        is_stream_time: false,
    }
}

/// Whether a value switches a toggle on: it does when it is at least one.
pub open spec fn switches_on(val: u32) -> bool {
    at_least(val, ONE)
}

/// Whether `val` is a loop period that is taken: strictly between ten and
/// two thousand milliseconds.
pub open spec fn loop_ms_taken(val: u32) -> bool {
    less(TEN, val) && less(val, TWO_THOUSAND)
}

/// Whether `val` is a bus pause that is taken: strictly between fifty and
/// one thousand microseconds.
pub open spec fn i2c_sleep_us_taken(val: u32) -> bool {
    less(FIFTY, val) && less(val, THOUSAND)
}

/// What `conf` becomes on the request to set `key` to `val`; `None` where
/// the request is turned down: for a key that names no setting, and for a
/// period or a pause out of its band.
pub open spec fn updated(conf: Conf, key: Seq<char>, val: u32) -> Option<Conf> {
    let switch = switches_on(val);
    if key == "enable"@ {
        Some(Conf { is_mqtt_conf: switch, ..conf })
    } else if key == "loop_sleep_ms"@ && loop_ms_taken(val) {
        Some(Conf { loop_ms: whole(val), ..conf })
    } else if key == "i2c_sleep_us"@ && i2c_sleep_us_taken(val) {
        Some(Conf { i2c_sleep_us: whole(val), ..conf })
    } else if key == "is_send_mqtt"@ {
        Some(Conf { is_send_mqtt: switch, ..conf })
    } else if key == "is_print_serial"@ {
        Some(Conf { is_print_serial: switch, ..conf })
    } else if key == "is_fire_water"@ {
        Some(Conf { is_fire_water: switch, ..conf })
    } else if key == "is_stream_q"@ {
        Some(Conf { is_stream_q: switch, ..conf })
    } else if key == "is_stream_states"@ {
        Some(Conf { is_stream_states: switch, ..conf })
    } else if key == "is_stream_current"@ {
        Some(Conf { is_stream_current: switch, ..conf })
    } else if key == "is_stream_debug"@ {
        Some(Conf { is_stream_time: switch, ..conf })
    } else {
        None
    }
}

/// A request never takes the period or the pause out of its band:
/// settings within them stay within them, taken or turned down.
pub proof fn lemma_update_keeps_bands(conf: Conf, key: Seq<char>, val: u32)
    requires
        conf.wf(),
    ensures
        updated(conf, key, val) matches Some(next) ==> next.wf(),
{
    if loop_ms_taken(val) {
        lemma_whole_between_ten_and_two_thousand(val);
    }
    if i2c_sleep_us_taken(val) {
        lemma_whole_between_fifty_and_thousand(val);
    }
}

fn is_key(key: &String, name: &str) -> (same: bool)
    ensures
        same == (key@ == name@),
{
    let wanted: String = name.to_string();
    *key == wanted
}

impl Conf {
    /// The period is from 10 to 2000 milliseconds and the pause from 50
    /// to 999 microseconds.
    pub open spec fn wf(&self) -> bool {
        10 <= self.loop_ms <= 2000 && 50 <= self.i2c_sleep_us <= 999
    }

    /// The initial settings.
    pub fn new() -> (conf: Self)
        ensures
            conf == initial_conf(),
            conf.wf(),
    {
        Self {
            loop_ms: 2000,
            i2c_sleep_us: 250,
            is_print_serial: true,
            is_send_mqtt: false,
            is_mqtt_conf: true,
            is_fire_water: false,
            is_stream_q: false,
            is_stream_states: true,
            is_stream_current: false,
            is_stream_time: false,
        }
    }

    /// Applies the request to set `key_cmd.key` to `key_cmd.val`, and
    /// tells whether it was taken. A request that is turned down changes
    /// nothing.
    pub fn update(&mut self, key_cmd: KeyCMD) -> (taken: bool)
        ensures
            taken == updated(*old(self), key_cmd.key@, key_cmd.val).is_some(),
            *final(self) == match updated(*old(self), key_cmd.key@, key_cmd.val) {
                Some(conf) => conf,
                None => *old(self),
            },
            old(self).wf() ==> final(self).wf(),
    {
        proof {
            if old(self).wf() {
                lemma_update_keeps_bands(*old(self), key_cmd.key@, key_cmd.val);
            }
        }
        let key: String = key_cmd.key;
        let val: u32 = key_cmd.val;
        let switch: bool = is_at_least(val, ONE);

        if is_key(&key, "enable") {
            self.is_mqtt_conf = switch;
        } else if is_key(&key, "loop_sleep_ms") && is_less(TEN, val) && is_less(val, TWO_THOUSAND) {
            self.loop_ms = to_whole(val);
        } else if is_key(&key, "i2c_sleep_us") && is_less(FIFTY, val) && is_less(val, THOUSAND) {
            self.i2c_sleep_us = to_whole(val);
        } else if is_key(&key, "is_send_mqtt") {
            self.is_send_mqtt = switch;
        } else if is_key(&key, "is_print_serial") {
            self.is_print_serial = switch;
        } else if is_key(&key, "is_fire_water") {
            self.is_fire_water = switch;
        } else if is_key(&key, "is_stream_q") {
            self.is_stream_q = switch;
        } else if is_key(&key, "is_stream_states") {
            self.is_stream_states = switch;
        } else if is_key(&key, "is_stream_current") {
            self.is_stream_current = switch;
        } else if is_key(&key, "is_stream_debug") {
            self.is_stream_time = switch;
        } else {
            return false;
        }
        true
    }
}

} // verus!
