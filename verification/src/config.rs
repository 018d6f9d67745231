//! What is configured for each device.

use std::collections::HashMap;
use vstd::prelude::*;
use vstd::string::*;
use crate::clock::get_unix_epoc;

verus! {

broadcast use vstd::std_specs::hash::group_hash_axioms;

/// The configuration of one device.
#[derive(Clone, Debug)]
pub struct DeviceConfig {
    /// Address of the device; no two configured devices share one.
    pub address: u64,
    /// Name to show for the device.
    pub name: Option<String>,
    /// Whether the device's clock is to be left alone.
    pub omit: Option<bool>,
    /// Name of the device's timezone in the tz database, such as
    /// `Asia/Seoul`.
    pub timezone: Option<String>,
    /// Seconds to add to the device's clock.
    pub offset_seconds: Option<i32>,
}

/// The configured devices.
#[derive(Clone, Debug)]
pub struct Config {
    pub devices: Option<Vec<DeviceConfig>>,
}

/// The lower-case form of a text, as `str::to_lowercase` gives it.
pub uninterp spec fn lowercased(text: Seq<char>) -> Seq<char>;

/// Seconds by which local time in the timezone `zone` is ahead of UTC at
/// `epoch` seconds since 1970, as the tz database of `chrono_tz` has it;
/// `None` where it has no such zone or the time is beyond what `chrono`
/// can hold.
pub uninterp spec fn zone_offset(zone: Seq<char>, epoch: i64) -> Option<i32>;

/// `str::to_lowercase`: the lower-case form of `text`.
#[verifier::external_body]
fn lowercase(text: &str) -> (folded: String)
    ensures
        folded@ == lowercased(text@),
{
    text.to_lowercase()
}

/// Looks `zone` up with `chrono_tz::Tz::from_str` and asks `chrono` for its
/// offset from UTC at the time `epoch` (`DateTime::from_timestamp`,
/// `DateTime::with_timezone`, `Offset::fix`, `FixedOffset::local_minus_utc`).
/// The result depends on the two arguments alone, and a `FixedOffset` is
/// always less than a day.
#[verifier::external_body]
fn utc_offset_seconds(zone: &str, epoch: i64) -> (seconds: Option<i32>)
    ensures
        seconds == zone_offset(zone@, epoch),
        seconds matches Some(s) ==> -86_400 < s < 86_400,
{
    let tz: chrono_tz::Tz = zone.parse().ok()?;
    let utc = chrono::DateTime::from_timestamp(epoch, 0)?;
    Some(chrono::Offset::fix(utc.with_timezone(&tz).offset()).local_minus_utc())
}

/// Whole hours in `seconds`, rounded towards zero.
pub open spec fn whole_hours(seconds: int) -> int {
    if seconds >= 0 {
        seconds / 3600
    } else {
        -((-seconds) / 3600)
    }
}

/// Turns an offset from UTC in seconds into whole hours, rounded towards
/// zero.
pub fn offset_hours(seconds: i32) -> (hours: i8)
    requires
        -86_400 < seconds < 86_400,
    ensures
        hours == whole_hours(seconds as int),
        -24 < hours < 24,
{
    if seconds >= 0 {
        (seconds / 3600) as i8
    } else {
        let size: i32 = -seconds;
        let hours: i32 = size / 3600;
        (-hours) as i8
    }
}

/// Whether `at` is the index of the first of `names` that is `wanted`.
pub open spec fn first_match(names: Seq<Option<Seq<char>>>, wanted: Seq<char>, at: int) -> bool {
    &&& 0 <= at < names.len()
    &&& names[at] == Some(wanted)
    &&& forall|j: int| 0 <= j < at ==> names[j] != Some(wanted)
}

/// The texts that `names` hold.
pub open spec fn name_views(names: Seq<Option<String>>) -> Seq<Option<Seq<char>>> {
    names.map_values(
        |n: Option<String>|
            match n {
                Some(s) => Some(s@),
                None => None,
            },
    )
}

/// Finds the first of `names` that equals `wanted`, character by character.
pub fn position_of(names: &Vec<Option<String>>, wanted: &String) -> (found: Option<usize>)
    ensures
        match found {
            Some(at) => first_match(name_views(names@), wanted@, at as int),
            None => forall|j: int|
                0 <= j < names@.len() ==> name_views(names@)[j] != Some(wanted@),
        },
{
    let mut i: usize = 0;
    while i < names.len()
        invariant
            i <= names@.len(),
            forall|j: int| 0 <= j < i ==> name_views(names@)[j] != Some(wanted@),
        decreases names@.len() - i,
    {
        let hit = match &names[i] {
            Some(n) => *n == *wanted,
            None => false,
        };
        assert(hit == (name_views(names@)[i as int] == Some(wanted@)));
        if hit {
            return Some(i);
        }
        i += 1;
    }
    None
}

/// The devices by their addresses. Where two share an address, the later
/// one stands.
pub open spec fn by_address(entries: Seq<DeviceConfig>) -> Map<u64, DeviceConfig>
    decreases entries.len(),
{
    if entries.len() == 0 {
        Map::empty()
    } else {
        by_address(entries.drop_last()).insert(entries.last().address, entries.last())
    }
}

/// Whether each device in `registry` is found under its own address.
pub open spec fn keyed_by_address(registry: Map<u64, DeviceConfig>) -> bool {
    forall|a: u64| registry.contains_key(a) ==> (#[trigger] registry[a]).address == a
}

/// The devices by their addresses are the configured ones, each under its
/// own address: an address is found exactly if a device is configured
/// with it, and what is found is one of the configured devices.
pub proof fn lemma_by_address(entries: Seq<DeviceConfig>)
    ensures
        keyed_by_address(by_address(entries)),
        forall|a: u64| #[trigger]
            by_address(entries).contains_key(a) <==> exists|i: int|
                0 <= i < entries.len() && (#[trigger] entries[i]).address == a,
        forall|a: u64| #[trigger]
            by_address(entries).contains_key(a) ==> entries.contains(by_address(entries)[a]),
    decreases entries.len(),
{
    if entries.len() > 0 {
        let front = entries.drop_last();
        lemma_by_address(front);
        assert forall|a: u64| #[trigger]
            by_address(entries).contains_key(a) implies exists|i: int|
            0 <= i < entries.len() && (#[trigger] entries[i]).address == a by {
            if a == entries.last().address {
                assert(entries[entries.len() - 1].address == a);
            } else {
                let i = choose|i: int| 0 <= i < front.len() && (#[trigger] front[i]).address == a;
                assert(entries[i] == front[i]);
            }
        }
        assert forall|a: u64|
            (exists|i: int|
                0 <= i < entries.len() && (#[trigger] entries[i]).address
                    == a) implies #[trigger] by_address(entries).contains_key(a) by {
            let i = choose|i: int| 0 <= i < entries.len() && (#[trigger] entries[i]).address == a;
            if i < front.len() {
                assert(front[i].address == a);
            }
        }
        assert forall|a: u64| #[trigger]
            by_address(entries).contains_key(a) implies entries.contains(
            by_address(entries)[a],
        ) by {
            if a == entries.last().address {
                assert(entries[entries.len() - 1] == by_address(entries)[a]);
            } else {
                let found = by_address(front)[a];
                assert(front.contains(found));
                let i = choose|i: int| 0 <= i < front.len() && front[i] == found;
                assert(entries[i] == found);
            }
        }
    }
}

impl DeviceConfig {
    /// A second value of this configuration.
    pub fn duplicate(&self) -> (copy: DeviceConfig)
        ensures
            copy == *self,
    {
        let name = match &self.name {
            Some(n) => Some(n.clone()),
            None => None,
        };
        let timezone = match &self.timezone {
            Some(z) => Some(z.clone()),
            None => None,
        };
        DeviceConfig {
            address: self.address,
            name,
            omit: self.omit,
            timezone,
            offset_seconds: self.offset_seconds,
        }
    }

    /// The name of this device in lower case, if it has one.
    pub open spec fn folded_name(&self) -> Option<Seq<char>> {
        match self.name {
            Some(n) => Some(lowercased(n@)),
            None => None,
        }
    }

    /// Hours between this device's timezone and UTC at the time `epoch`.
    pub open spec fn diff_hour_at(&self, epoch: u64) -> Option<i8> {
        match self.timezone {
            None => None,
            Some(zone) => if epoch > i64::MAX {
                None
            } else {
                match zone_offset(zone@, epoch as i64) {
                    Some(seconds) => Some(whole_hours(seconds as int) as i8),
                    None => None,
                }
            },
        }
    }

    /// Hours between this device's timezone and UTC at the time `epoch`,
    /// in seconds since 1970: the timezone's offset then, rounded towards
    /// zero. `None` without a timezone, with one that the tz database does
    /// not have, or at a time beyond what it covers.
    pub fn get_timezone_diff_hour_at(&self, epoch: u64) -> (hours: Option<i8>)
        ensures
            hours == self.diff_hour_at(epoch),
            self.timezone is None ==> hours is None,
    {
        match &self.timezone {
            None => None,
            Some(zone) => {
                if epoch > 0x7fff_ffff_ffff_ffff {
                    return None;
                }
                match utc_offset_seconds(zone.as_str(), epoch as i64) {
                    Some(seconds) => Some(offset_hours(seconds)),
                    None => None,
                }
            },
        }
    }

    /// Hours between this device's timezone and UTC now.
    pub fn get_timezone_diff_hour(&self) -> (hours: Option<i8>)
        ensures
            exists|epoch: u64| hours == self.diff_hour_at(epoch),
            self.timezone is None ==> hours is None,
    {
        let now = get_unix_epoc();
        self.get_timezone_diff_hour_at(now)
    }
}

impl Config {
    /// The configured devices in their order; none where the list is absent.
    pub open spec fn entries(&self) -> Seq<DeviceConfig> {
        match self.devices {
            Some(list) => list@,
            None => Seq::empty(),
        }
    }

    /// The names of the devices in lower case, in their order.
    pub open spec fn folded_names(&self) -> Seq<Option<Seq<char>>> {
        self.entries().map_values(|d: DeviceConfig| d.folded_name())
    }

    /// Gives the devices by their addresses, for looking one up. Where two
    /// share an address, the later one stands.
    pub fn device_map(&self) -> (map: HashMap<u64, DeviceConfig>)
        ensures
            map@ == by_address(self.entries()),
            keyed_by_address(map@),
    {
        proof {
            lemma_by_address(self.entries());
        }
        let mut map: HashMap<u64, DeviceConfig> = HashMap::new();
        if let Some(list) = &self.devices {
            let mut i: usize = 0;
            assert(list@.take(0) =~= Seq::<DeviceConfig>::empty());
            while i < list.len()
                invariant
                    i <= list@.len(),
                    map@ == by_address(list@.take(i as int)),
                decreases list@.len() - i,
            {
                assert(list@.take(i + 1).drop_last() =~= list@.take(i as int));
                map.insert(list[i].address, list[i].duplicate());
                i += 1;
            }
            assert(list@.take(i as int) =~= list@);
        }
        map
    }

    /// Finds the first device whose name is `name`, upper and lower case
    /// taken as equal. A device without a name is never found.
    pub fn get_device_by_name(&self, name: &str) -> (found: Option<&DeviceConfig>)
        ensures
            match found {
                Some(device) => exists|at: int|
                    first_match(self.folded_names(), lowercased(name@), at) && *device
                        == self.entries()[at],
                None => forall|j: int|
                    0 <= j < self.entries().len() ==> self.folded_names()[j] != Some(
                        lowercased(name@),
                    ),
            },
    {
        match &self.devices {
            None => None,
            Some(list) => {
                let wanted = lowercase(name);
                let mut folded: Vec<Option<String>> = Vec::new();
                let mut i: usize = 0;
                while i < list.len()
                    invariant
                        i <= list@.len(),
                        folded@.len() == i,
                        self.devices == Some(*list),
                        forall|j: int|
                            0 <= j < i ==> name_views(folded@)[j] == self.folded_names()[j],
                    decreases list@.len() - i,
                {
                    let entry = match &list[i].name {
                        Some(n) => Some(lowercase(n.as_str())),
                        None => None,
                    };
                    folded.push(entry);
                    i += 1;
                }
                assert(name_views(folded@) =~= self.folded_names());
                match position_of(&folded, &wanted) {
                    Some(at) => {
                        assert(first_match(self.folded_names(), lowercased(name@), at as int));
                        Some(&list[at])
                    },
                    None => None,
                }
            },
        }
    }
}

} // verus!
