//! The readings themselves, with what has to be remembered from one refresh to the next.
use vstd::prelude::*;
use crate::config::SysInfoConfig;
use crate::network;
use crate::network::InterfaceEntry;
use crate::public_ip;
use crate::reading::Speed;
use crate::retry;

verus! {

/// How long a public address is good for, in seconds.
pub const IP_REFRESH_SECONDS: u64 = 300;

/// How long a public address is good for, in nanoseconds.
pub const IP_REFRESH_INTERVAL: u128 = 300_000_000_000;

/// How many times longer each delay is than the one before it.
pub const RETRY_GROWTH: u8 = 2;

/// How long the list of interfaces is good for, in nanoseconds.
pub const INTERFACE_SCAN_INTERVAL: u128 = 10_000_000_000;

/// The last nanosecond that a `std::time::Duration` can hold: readings of the clock are durations.
pub const CLOCK_MAX: u128 = 18_446_744_073_709_551_615_999_999_999;

/// The readings, and what has to be remembered from one refresh to the next.
///
/// A `T` is a reading with a fraction (a percentage, a temperature). Times are readings of one
/// clock that never goes back, in nanoseconds.
pub struct Data<T> {
    pub physical_interfaces: Vec<String>,
    pub last_interface_scan: u128,
    pub next_ip_fetch: u128,
    pub ip_backoff: backoff::ExponentialBackoff,
    /// Usage of all processors, in percent.
    pub cpu_usage: Option<T>,
    /// Usage of the memory, in percent.
    pub ram_usage: Option<u64>,
    /// What was received since the refresh before.
    pub download_speed: Option<Speed>,
    /// What was sent since the refresh before.
    pub upload_speed: Option<Speed>,
    /// Temperature of the processor, in degrees Celsius.
    pub cpu_temp: Option<T>,
    /// Temperature of the graphics card, in degrees Celsius.
    pub gpu_temp: Option<T>,
    /// Usage of the graphics card, in percent.
    pub gpu_usage: Option<u64>,
    pub public_ipv4: Option<String>,
    pub public_ipv6: Option<String>,
}

/// What `Data` stands for.
#[verifier::ext_equal]
pub struct DataView<T> {
    pub physical_interfaces: Seq<Seq<char>>,
    pub last_interface_scan: u128,
    pub next_ip_fetch: u128,
    /// The interval that the retry schedule has reached, in nanoseconds.
    pub retry_interval: nat,
    pub cpu_usage: Option<T>,
    pub ram_usage: Option<u64>,
    pub download_speed: Option<Speed>,
    pub upload_speed: Option<Speed>,
    pub cpu_temp: Option<T>,
    pub gpu_temp: Option<T>,
    pub gpu_usage: Option<u64>,
    pub public_ipv4: Option<Seq<char>>,
    pub public_ipv6: Option<Seq<char>>,
}

impl<T> View for Data<T> {
    type V = DataView<T>;

    open spec fn view(&self) -> DataView<T> {
        DataView {
            physical_interfaces: network::texts(self.physical_interfaces@),
            last_interface_scan: self.last_interface_scan,
            next_ip_fetch: self.next_ip_fetch,
            retry_interval: retry::retry_interval(self.ip_backoff),
            cpu_usage: self.cpu_usage,
            ram_usage: self.ram_usage,
            download_speed: self.download_speed,
            upload_speed: self.upload_speed,
            cpu_temp: self.cpu_temp,
            gpu_temp: self.gpu_temp,
            gpu_usage: self.gpu_usage,
            public_ipv4: public_ip::text_of(self.public_ipv4),
            public_ipv6: public_ip::text_of(self.public_ipv6),
        }
    }
}

/// How the delays between attempts to fetch an address grow: from half a second, twice as long
/// after each attempt, up to the time for which an address is good.
pub open spec fn ip_retry() -> retry::RetrySettings {
    retry::RetrySettings {
        initial: 500_000_000,
        cap: IP_REFRESH_INTERVAL as nat,
        growth: RETRY_GROWTH as nat,
    }
}

impl<T> Data<T> {
    /// The retry schedule is the one for public addresses.
    pub open spec fn well_formed(self) -> bool {
        &&& retry::retry_settings(self.ip_backoff) == Some(ip_retry())
        &&& ip_retry().initial <= retry::retry_interval(self.ip_backoff) <= ip_retry().cap
    }
}

impl<T: Copy> Data<T> {
    /// No readings yet; the interfaces among `entries` that count; a first fetch of the public
    /// addresses that is due at once.
    pub fn new(config: &SysInfoConfig, entries: &Vec<InterfaceEntry>, now: u128) -> (data: Self)
        ensures
            data.well_formed(),
            data@ == (DataView::<T> {
                physical_interfaces: network::physical(*config, entries@),
                last_interface_scan: now,
                next_ip_fetch: now,
                retry_interval: ip_retry().initial,
                cpu_usage: None,
                ram_usage: None,
                download_speed: None,
                upload_speed: None,
                cpu_temp: None,
                gpu_temp: None,
                gpu_usage: None,
                public_ipv4: None,
                public_ipv6: None,
            }),
    {
        Data {
            physical_interfaces: Self::detect_physical_interfaces(config, entries),
            last_interface_scan: now,
            next_ip_fetch: now,
            ip_backoff: retry::new_schedule(IP_REFRESH_SECONDS, RETRY_GROWTH, None),
            cpu_usage: None,
            ram_usage: None,
            download_speed: None,
            upload_speed: None,
            cpu_temp: None,
            gpu_temp: None,
            gpu_usage: None,
            public_ipv4: None,
            public_ipv6: None,
        }
    }
}

} // verus!
