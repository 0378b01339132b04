//! The DS18B20 temperature sensor on its OneWire bus.
//!
//! Setting the sensor up means to reset the bus and to search it for a device
//! of the right family. The functions here take in what came of each of these
//! and tell what follows.
use vstd::prelude::*;

verus! {

/// The driver of a DS18B20 sensor, as the `onewire` crate keeps it.
#[verifier::external_type_specification]
#[verifier::external_body]
pub struct ExternalDs18b20(onewire::DS18B20);

/// The family code that the address of every DS18B20 starts with.
pub open spec fn ds18b20_family() -> u8 {
    0x28
}

/// The constant `onewire::ds18b20::FAMILY_CODE`. Trusted: it is 0x28.
#[verifier::external_body]
fn family_code() -> (code: u8)
    ensures
        code == ds18b20_family(),
{
    onewire::ds18b20::FAMILY_CODE
}

/// Why the address of a device was turned down.
#[derive(Debug, PartialEq, Eq)]
pub enum AddressError {
    /// The wire did not go high.
    WireNotHigh,
    /// A checksum did not match.
    CrcMismatch { computed: u8, expected: u8 },
    /// The device belongs to another family.
    FamilyCodeMismatch { expected: u8, actual: u8 },
    /// A value given out for debugging.
    Debug(Option<u8>),
}

/// Whether an address is that of a DS18B20, so that a driver can be made
/// for it.
pub open spec fn is_ds18b20(address: Seq<u8>) -> bool {
    address[0] == ds18b20_family()
}

/// The error for a device of another family.
pub open spec fn mismatch(actual: u8) -> AddressError {
    AddressError::FamilyCodeMismatch { expected: ds18b20_family(), actual }
}

/// The driver that `onewire::DS18B20::new` makes for a device with this
/// address.
pub uninterp spec fn ds18b20_driver(address: Seq<u8>) -> onewire::DS18B20;

/// Calls `onewire::DS18B20::new` on a device with this address. Trusted: it
/// makes the driver of that device if and only if the address starts with the
/// DS18B20 family code, and otherwise fails with a mismatch that holds both
/// codes. What driver comes out depends on the address alone.
#[verifier::external_body]
fn new_driver(address: [u8; 8]) -> (driver: Result<onewire::DS18B20, AddressError>)
    ensures
        match driver {
            Ok(made) => is_ds18b20(address@) && made == ds18b20_driver(address@),
            Err(error) => !is_ds18b20(address@) && error == mismatch(address@[0]),
        },
{
    match onewire::DS18B20::new(onewire::Device { address }) {
        Ok(driver) => Ok(driver),
        Err(onewire::Error::WireNotHigh) => Err(AddressError::WireNotHigh),
        Err(onewire::Error::CrcMismatch { computed, expected }) => {
            Err(AddressError::CrcMismatch { computed, expected })
        },
        Err(onewire::Error::FamilyCodeMismatch { expected, actual }) => {
            Err(AddressError::FamilyCodeMismatch { expected, actual })
        },
        Err(onewire::Error::Debug(value)) => Err(AddressError::Debug(value)),
        Err(onewire::Error::PortError(never)) => match never {},
    }
}

/// A DS18B20 sensor that was found on the bus.
pub struct TemperatureSensor {
    address: [u8; 8],
    driver: onewire::DS18B20,
}

impl TemperatureSensor {
    /// The sensor's address on the bus.
    pub closed spec fn address(&self) -> Seq<u8> {
        self.address@
    }

    /// The address is that of a DS18B20, and the driver is the one for it.
    #[verifier::type_invariant]
    closed spec fn well_formed(self) -> bool {
        &&& is_ds18b20(self.address@)
        &&& self.driver == ds18b20_driver(self.address@)
    }

    /// Makes the sensor for an address, which has to be that of a DS18B20.
    pub fn new(address: [u8; 8]) -> (sensor: Result<TemperatureSensor, AddressError>)
        ensures
            match sensor {
                Ok(made) => is_ds18b20(address@) && made.address() == address@,
                Err(error) => !is_ds18b20(address@) && error == mismatch(address@[0]),
            },
    {
        match new_driver(address) {
            Ok(driver) => Ok(TemperatureSensor { address, driver }),
            Err(error) => Err(error),
        }
    }

    /// The address of the sensor, which is that of a DS18B20.
    pub fn bus_address(&self) -> (address: [u8; 8])
        ensures
            address@ == self.address(),
            is_ds18b20(address@),
    {
        proof {
            use_type_invariant(self);
        }
        self.address
    }

    /// The driver for the sensor's address, for use on the bus.
    pub fn driver(&self) -> (driver: &onewire::DS18B20)
        ensures
            *driver == ds18b20_driver(self.address()),
    {
        proof {
            use_type_invariant(self);
        }
        &self.driver
    }
}

/// Why no sensor could be set up. `E` is an error of the bus.
#[derive(Debug, PartialEq, Eq)]
pub enum OneWireError<E> {
    /// No device of the right family answered.
    DeviceNotFound,
    /// The bus failed.
    Onewire(E),
}

impl<E> From<E> for OneWireError<E> {
    fn from(error: E) -> (converted: Self) {
        OneWireError::Onewire(error)
    }
}

impl<E> vstd::std_specs::convert::FromSpecImpl<E> for OneWireError<E> {
    open spec fn obeys_from_spec() -> bool {
        true
    }

    open spec fn from_spec(error: E) -> Self {
        OneWireError::Onewire(error)
    }
}

impl OneWireError<String> {
    /// What is reported for the error, given the bus error as text.
    pub open spec fn text(&self) -> Seq<char> {
        match *self {
            OneWireError::DeviceNotFound => "OneWire device not found"@,
            OneWireError::Onewire(error) => "OneWire error: "@ + error@,
        }
    }

    /// Writes out the error for a report.
    pub fn message(&self) -> (message: String)
        ensures
            message@ == self.text(),
    {
        match self {
            OneWireError::DeviceNotFound => "OneWire device not found".to_owned(),
            OneWireError::Onewire(error) => {
                "OneWire error: ".to_owned().concat(error.as_str())
            },
        }
    }
}

/// What follows a step of the search for a device.
#[derive(Debug, PartialEq, Eq)]
pub enum SearchStep<E> {
    /// Look for the next device.
    SearchNext,
    /// This is the device.
    Found([u8; 8]),
    /// The search is over without a device.
    Failed(OneWireError<E>),
}

/// What follows when the bus answers the search for the next device with
/// `reply`: its address, that there is none, or a failure.
pub open spec fn search_step<E>(family_code: u8, reply: Result<Option<[u8; 8]>, E>) -> SearchStep<
    E,
> {
    match reply {
        Err(error) => SearchStep::Failed(OneWireError::Onewire(error)),
        Ok(None) => SearchStep::Failed(OneWireError::DeviceNotFound),
        Ok(Some(address)) => if address@[0] == family_code {
            SearchStep::Found(address)
        } else {
            SearchStep::SearchNext
        },
    }
}

/// Judges one answer of the bus in the search for a device of a family.
pub fn find_onewire_device<E>(
    family_code: u8,
    reply: Result<Option<[u8; 8]>, E>,
) -> (step: SearchStep<E>)
    ensures
        step == search_step(family_code, reply),
{
    match reply {
        Err(error) => SearchStep::Failed(OneWireError::from(error)),
        Ok(None) => SearchStep::Failed(OneWireError::DeviceNotFound),
        Ok(Some(address)) => {
            if address[0] == family_code {
                SearchStep::Found(address)
            } else {
                SearchStep::SearchNext
            }
        },
    }
}

/// What is to be done next to set up the sensor.
pub enum SetupStep<E> {
    /// Look for the next device on the bus.
    SearchNext,
    /// The setup is over.
    Finished(Result<TemperatureSensor, OneWireError<E>>),
}

/// Whether a step of the setup is what a step of the search leads to: the
/// sensor at the address that was found, or the search's failure.
pub open spec fn follows_search<E>(next: SetupStep<E>, step: SearchStep<E>) -> bool {
    match step {
        SearchStep::SearchNext => next is SearchNext,
        SearchStep::Found(address) => next matches SetupStep::Finished(Ok(sensor))
            && sensor.address() == address@,
        SearchStep::Failed(error) => next == SetupStep::<E>::Finished(Err(error)),
    }
}

impl TemperatureSensor {
    /// Takes in what came of the bus reset that the setup starts with. Whether
    /// a device was present is left to the search.
    pub fn after_reset<E>(reply: Result<bool, E>) -> (next: SetupStep<E>)
        ensures
            match reply {
                Ok(_) => next is SearchNext,
                Err(error) => next == SetupStep::<E>::Finished(Err(OneWireError::Onewire(error))),
            },
    {
        match reply {
            Ok(_) => SetupStep::SearchNext,
            Err(error) => SetupStep::Finished(Err(OneWireError::from(error))),
        }
    }

    /// Takes in what came of the search for the next device.
    pub fn after_search<E>(reply: Result<Option<[u8; 8]>, E>) -> (next: SetupStep<E>)
        ensures
            follows_search(next, search_step(ds18b20_family(), reply)),
    {
        match find_onewire_device(family_code(), reply) {
            SearchStep::SearchNext => SetupStep::SearchNext,
            SearchStep::Found(address) => {
                SetupStep::Finished(Ok(TemperatureSensor::new(address).unwrap()))
            },
            SearchStep::Failed(error) => SetupStep::Finished(Err(error)),
        }
    }
}

/// What a search ends with when the bus gives these answers, or nothing when
/// it is still under way after them.
pub open spec fn search_result<E>(
    family_code: u8,
    replies: Seq<Result<Option<[u8; 8]>, E>>,
) -> Option<Result<[u8; 8], OneWireError<E>>>
    decreases replies.len(),
{
    if replies.len() == 0 {
        None
    } else {
        match search_step(family_code, replies[0]) {
            SearchStep::SearchNext => search_result(family_code, replies.skip(1)),
            SearchStep::Found(address) => Some(Ok(address)),
            SearchStep::Failed(error) => Some(Err(error)),
        }
    }
}

/// Devices of other families are passed over: the search ends with the first
/// answer that is anything else.
pub proof fn law_search_skips_other_families<E>(
    family_code: u8,
    replies: Seq<Result<Option<[u8; 8]>, E>>,
    k: int,
)
    requires
        0 <= k < replies.len(),
        forall|j: int|
            0 <= j < k ==> (#[trigger] replies[j] matches Ok(Some(address)) && address@[0]
                != family_code),
        !(replies[k] matches Ok(Some(address)) && address@[0] != family_code),
    ensures
        search_result(family_code, replies) == Some(
            match replies[k] {
                Ok(Some(address)) => Ok(address),
                Ok(None) => Err(OneWireError::DeviceNotFound),
                Err(error) => Err(OneWireError::Onewire(error)),
            },
        ),
    decreases k,
{
    if k > 0 {
        let rest = replies.skip(1);
        assert(replies[0] matches Ok(Some(address)) && address@[0] != family_code);
        assert forall|j: int| 0 <= j < k - 1 implies (#[trigger] rest[j] matches Ok(Some(address))
            && address@[0] != family_code) by {
            assert(rest[j] == replies[j + 1]);
        }
        law_search_skips_other_families(family_code, rest, k - 1);
    }
}

/// A device that a search found belongs to the family searched for.
pub proof fn law_found_device_has_family<E>(
    family_code: u8,
    replies: Seq<Result<Option<[u8; 8]>, E>>,
)
    ensures
        search_result(family_code, replies) matches Some(Ok(address)) ==> address@[0]
            == family_code,
    decreases replies.len(),
{
    if replies.len() > 0 {
        law_found_device_has_family(family_code, replies.skip(1));
    }
}

/// Whatever is on the bus, a device that the setup finds is a DS18B20, so
/// making the sensor for its address cannot fail.
pub proof fn law_setup_cannot_fail_on_found_device<E>(
    replies: Seq<Result<Option<[u8; 8]>, E>>,
)
    ensures
        search_result(ds18b20_family(), replies) matches Some(Ok(address)) ==> is_ds18b20(address@),
        forall|reply: Result<Option<[u8; 8]>, E>|
            #[trigger] search_step(ds18b20_family(), reply) matches SearchStep::Found(address)
                ==> is_ds18b20(address@),
{
    law_found_device_has_family(ds18b20_family(), replies);
}

/// The temperature that a reading stands for, in sixteenths of a degree
/// Celsius: readings are two's complement numbers of 16 bits.
pub open spec fn signed_reading(reading: u16) -> i16 {
    if reading < 0x8000 {
        reading as i16
    } else {
        (reading - 0x1_0000) as i16
    }
}

/// Converts a reading of the sensor to sixteenths of a degree Celsius.
pub fn sixteenths_of(reading: u16) -> (sixteenths: i16)
    ensures
        sixteenths == signed_reading(reading),
        sixteenths as int == if reading < 0x8000 {
            reading as int
        } else {
            reading - 0x1_0000
        },
{
    if reading < 0x8000 {
        reading as i16
    } else {
        -((0xffff - reading) as i16) - 1
    }
}

/// Readings and temperatures correspond one to one, so no two temperatures
/// are confused, and those below zero are the readings with the top bit set.
pub proof fn law_readings_distinct(a: u16, b: u16)
    requires
        signed_reading(a) == signed_reading(b),
    ensures
        a == b,
        signed_reading(a) < 0 <==> a >= 0x8000,
{
}

/// How finely the sensor measures.
#[derive(Clone, Copy, Debug, PartialEq, Eq, Structural)]
pub enum MeasureResolution {
    /// Half a degree.
    TC8,
    /// A quarter of a degree.
    TC4,
    /// An eighth of a degree.
    TC2,
    /// A sixteenth of a degree.
    TC,
}

/// The longest time a measurement takes, in milliseconds.
pub open spec fn conversion_time_ms(resolution: MeasureResolution) -> u16 {
    match resolution {
        MeasureResolution::TC8 => 94,
        MeasureResolution::TC4 => 188,
        MeasureResolution::TC2 => 375,
        MeasureResolution::TC => 750,
    }
}

/// Calls `onewire::ds18b20::MeasureResolution::time_ms`. Trusted: it gives 94,
/// 188, 375 or 750 milliseconds, from the coarsest resolution to the finest.
#[verifier::external_body]
fn time_ms(resolution: MeasureResolution) -> (ms: u16)
    ensures
        ms == conversion_time_ms(resolution),
{
    let outside = match resolution {
        MeasureResolution::TC8 => onewire::ds18b20::MeasureResolution::TC8,
        MeasureResolution::TC4 => onewire::ds18b20::MeasureResolution::TC4,
        MeasureResolution::TC2 => onewire::ds18b20::MeasureResolution::TC2,
        MeasureResolution::TC => onewire::ds18b20::MeasureResolution::TC,
    };
    outside.time_ms()
}

/// How long to wait between the start of a measurement and its reading, in
/// milliseconds.
pub fn measurement_delay_ms(resolution: MeasureResolution) -> (ms: u32)
    ensures
        ms == conversion_time_ms(resolution),
{
    time_ms(resolution) as u32
}

/// A reading and its temperature agree in their sixteen bits: they differ by
/// a multiple of 65536.
pub proof fn law_reading_is_twos_complement(reading: u16)
    ensures
        (reading as int - signed_reading(reading) as int) % 0x1_0000 == 0,
{
}

/// The setup goes by the bus alone: a failure ends it with that failure, the
/// end of the devices with none found, a device of family 0x28 with the
/// sensor at its address, and any other device has the search go on.
pub proof fn law_setup_follows_bus<E>(next: SetupStep<E>, reply: Result<Option<[u8; 8]>, E>)
    requires
        follows_search(next, search_step(ds18b20_family(), reply)),
    ensures
        match reply {
            Err(error) => next == SetupStep::<E>::Finished(Err(OneWireError::Onewire(error))),
            Ok(None) => next == SetupStep::<E>::Finished(Err(OneWireError::DeviceNotFound)),
            Ok(Some(address)) => if address@[0] == 0x28 {
                next matches SetupStep::Finished(Ok(sensor)) && sensor.address() == address@
            } else {
                next is SearchNext
            },
        },
{
}

/// A report of a failed setup says that no device was found, or ends with the
/// bus's own words.
pub proof fn law_onewire_error_text(error: String)
    ensures
        OneWireError::<String>::DeviceNotFound.text() == "OneWire device not found"@,
        OneWireError::Onewire(error).text() == "OneWire error: "@ + error@,
{
}

} // verus!
