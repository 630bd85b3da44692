//! What an advertisement schema declares: flags, a list of services, a short
//! name and a full name.

use vstd::prelude::*;
use vstd::string::*;
use crate::basic_service::{basic_service, BasicService};
use crate::error::{ErrorModel, SchemaError};
use crate::text::is_word;
use crate::uuid::{le_bytes16, Uuid};

verus! {

/// A flag of the advertisement.
#[allow(non_camel_case_types)]
#[derive(Clone, Copy, Debug, PartialEq, Eq, Structural)]
pub enum Flag {
    LimitedDiscovery,
    GeneralDiscovery,
    LE_Only,
    Bit3,
    Bit4,
}

/// The flag that a name stands for, if it is one.
pub open spec fn flag_named(name: Seq<u8>) -> Option<Flag> {
    if name == "LimitedDiscovery".spec_bytes() {
        Some(Flag::LimitedDiscovery)
    } else if name == "GeneralDiscovery".spec_bytes() {
        Some(Flag::GeneralDiscovery)
    } else if name == "LE_Only".spec_bytes() {
        Some(Flag::LE_Only)
    } else if name == "Bit3".spec_bytes() {
        Some(Flag::Bit3)
    } else if name == "Bit4".spec_bytes() {
        Some(Flag::Bit4)
    } else {
        None
    }
}

impl Flag {
    /// The bit of the flags byte that the flag sets.
    pub open spec fn spec_bit(self) -> u8 {
        match self {
            Flag::LimitedDiscovery => 0x01,
            Flag::GeneralDiscovery => 0x02,
            Flag::LE_Only => 0x04,
            Flag::Bit3 => 0x08,
            Flag::Bit4 => 0x10,
        }
    }

    /// The bit of the flags byte that the flag sets.
    #[verifier::when_used_as_spec(spec_bit)]
    pub fn bit(self) -> (r: u8)
        ensures
            r == self.spec_bit(),
    {
        match self {
            Flag::LimitedDiscovery => 0x01,
            Flag::GeneralDiscovery => 0x02,
            Flag::LE_Only => 0x04,
            Flag::Bit3 => 0x08,
            Flag::Bit4 => 0x10,
        }
    }

    /// Reads a flag from its name.
    pub fn from_name(name: &[u8]) -> (r: Option<Flag>)
        ensures
            r == flag_named(name@),
    {
        if is_word(name, "LimitedDiscovery") {
            Some(Flag::LimitedDiscovery)
        } else if is_word(name, "GeneralDiscovery") {
            Some(Flag::GeneralDiscovery)
        } else if is_word(name, "LE_Only") {
            Some(Flag::LE_Only)
        } else if is_word(name, "Bit3") {
            Some(Flag::Bit3)
        } else if is_word(name, "Bit4") {
            Some(Flag::Bit4)
        } else {
            None
        }
    }
}

/// A set of flags, in the order in which the schema names them.
#[derive(Debug)]
pub struct FlagSet {
    pub items: Vec<Flag>,
}

impl View for FlagSet {
    type V = Seq<Flag>;

    open spec fn view(&self) -> Seq<Flag> {
        self.items@
    }
}

impl FlagSet {
    /// Whether the set names no flag twice.
    pub open spec fn wf(&self) -> bool {
        self@.no_duplicates()
    }

    /// A set of the given flags. Flags of which one comes twice are no set.
    pub fn new(items: Vec<Flag>) -> (r: Result<FlagSet, SchemaError>)
        ensures
            match r {
                Ok(set) => items@.no_duplicates() && set@ == items@,
                Err(e) => !items@.no_duplicates() && e@ == ErrorModel::DuplicateItem,
            },
    {
        let mut j: usize = 0;
        while j < items.len()
            invariant
                j <= items.len(),
                forall|a: int, b: int| 0 <= a < b < j ==> items@[a] != items@[b],
            decreases items.len() - j,
        {
            let mut i: usize = 0;
            while i < j
                invariant
                    i <= j < items.len(),
                    forall|a: int| 0 <= a < i ==> items@[a] != items@[j as int],
                decreases j - i,
            {
                if items[i] == items[j] {
                    return Err(SchemaError::DuplicateItem);
                }
                i = i + 1;
            }
            j = j + 1;
        }
        Ok(FlagSet { items })
    }
}

/// A service of a service list.
#[derive(Clone, Copy, Debug)]
pub enum Service {
    /// A service with an assigned number, written by its name.
    Basic16(BasicService),
    /// A service written by its UUID.
    Custom(Uuid),
}

/// A service of a service list as a value.
pub enum ServiceItem {
    Basic16(BasicService),
    Custom(Seq<u8>),
}

impl View for Service {
    type V = ServiceItem;

    open spec fn view(&self) -> ServiceItem {
        match *self {
            Service::Basic16(service) => ServiceItem::Basic16(service),
            Service::Custom(uuid) => ServiceItem::Custom(uuid@),
        }
    }
}

impl DeepView for Service {
    type V = ServiceItem;

    open spec fn deep_view(&self) -> ServiceItem {
        self@
    }
}

impl Service {
    /// Whether two services are the same item of a list.
    pub fn same(&self, other: &Service) -> (r: bool)
        ensures
            r == (self@ == other@),
    {
        match (self, other) {
            (Service::Basic16(a), Service::Basic16(b)) => *a == *b,
            (Service::Custom(a), Service::Custom(b)) => a.same(b),
            _ => false,
        }
    }
}

impl ServiceItem {
    /// The bytes of the service's UUID as they stand in an advertisement:
    /// a 16-bit UUID low byte first, a 128-bit UUID as it is held.
    pub open spec fn bytes(self) -> Seq<u8> {
        match self {
            ServiceItem::Basic16(service) => le_bytes16(service.spec_uuid16()),
            ServiceItem::Custom(uuid) => uuid,
        }
    }
}

/// The width of the UUIDs that a service list announces.
#[derive(Clone, Copy, Debug, PartialEq, Eq, Structural)]
pub enum Width {
    Bits16,
    Bits32,
    Bits128,
}

/// A list of services with its width and whether it is complete.
#[derive(Debug)]
pub struct Services {
    pub width: Width,
    pub complete: bool,
    pub items: Vec<Service>,
}

/// A service list as a value.
pub struct ServicesModel {
    pub width: Width,
    pub complete: bool,
    pub items: Seq<ServiceItem>,
}

impl View for Services {
    type V = ServicesModel;

    open spec fn view(&self) -> ServicesModel {
        ServicesModel { width: self.width, complete: self.complete, items: self.items.deep_view() }
    }
}

/// The type byte of a service list, by its width and completeness.
pub open spec fn spec_services_ad_type(width: Width, complete: bool) -> u8 {
    match (width, complete) {
        (Width::Bits16, false) => 0x02,
        (Width::Bits16, true) => 0x03,
        (Width::Bits32, false) => 0x04,
        (Width::Bits32, true) => 0x05,
        (Width::Bits128, false) => 0x06,
        (Width::Bits128, true) => 0x07,
    }
}

/// The type byte of a service list, by its width and completeness.
#[verifier::when_used_as_spec(spec_services_ad_type)]
pub fn services_ad_type(width: Width, complete: bool) -> (r: u8)
    ensures
        r == spec_services_ad_type(width, complete),
{
    match (width, complete) {
        (Width::Bits16, false) => 0x02,
        (Width::Bits16, true) => 0x03,
        (Width::Bits32, false) => 0x04,
        (Width::Bits32, true) => 0x05,
        (Width::Bits128, false) => 0x06,
        (Width::Bits128, true) => 0x07,
    }
}

impl Services {
    /// Whether the list holds a service, and none twice.
    pub open spec fn wf(&self) -> bool {
        self@.items.len() > 0 && self@.items.no_duplicates()
    }

    /// A list of the given services. No services are no list, and neither
    /// are services of which one comes twice.
    pub fn new(width: Width, complete: bool, items: Vec<Service>) -> (r: Result<
        Services,
        SchemaError,
    >)
        ensures
            match r {
                Ok(services) => services.wf() && services@ == (ServicesModel {
                    width,
                    complete,
                    items: items.deep_view(),
                }),
                Err(e) => if items@.len() == 0 {
                    e@ == ErrorModel::EmptyServiceList
                } else {
                    !items.deep_view().no_duplicates() && e@ == ErrorModel::DuplicateItem
                },
            },
    {
        if items.len() == 0 {
            return Err(SchemaError::EmptyServiceList);
        }
        let ghost models = items.deep_view();
        let mut j: usize = 0;
        while j < items.len()
            invariant
                j <= items.len(),
                models == items.deep_view(),
                forall|a: int, b: int| 0 <= a < b < j ==> models[a] != models[b],
            decreases items.len() - j,
        {
            let mut i: usize = 0;
            while i < j
                invariant
                    i <= j < items.len(),
                    models == items.deep_view(),
                    forall|a: int| 0 <= a < i ==> models[a] != models[j as int],
                decreases j - i,
            {
                if items[i].same(&items[j]) {
                    assert(models[i as int] == models[j as int]);
                    return Err(SchemaError::DuplicateItem);
                }
                i = i + 1;
            }
            j = j + 1;
        }
        Ok(Services { width, complete, items })
    }
}

/// The fields of an advertisement. Each is there at most once.
#[derive(Debug)]
pub struct AdvertisementData {
    pub flags: Option<FlagSet>,
    pub services: Option<Services>,
    /// The shortened local name, by its bytes.
    pub short_name: Option<Vec<u8>>,
    /// The complete local name, by its bytes.
    pub full_name: Option<Vec<u8>>,
}

/// An advertisement as a value.
pub struct AdvertisementModel {
    pub flags: Option<Seq<Flag>>,
    pub services: Option<ServicesModel>,
    pub short_name: Option<Seq<u8>>,
    pub full_name: Option<Seq<u8>>,
}

impl View for AdvertisementData {
    type V = AdvertisementModel;

    open spec fn view(&self) -> AdvertisementModel {
        AdvertisementModel {
            flags: match self.flags {
                Some(flags) => Some(flags@),
                None => None,
            },
            services: match self.services {
                Some(services) => Some(services@),
                None => None,
            },
            short_name: match self.short_name {
                Some(name) => Some(name@),
                None => None,
            },
            full_name: match self.full_name {
                Some(name) => Some(name@),
                None => None,
            },
        }
    }
}

impl AdvertisementModel {
    /// Whether the sets of the advertisement are sound: no flag twice, and a
    /// service list with at least one service and none twice.
    pub open spec fn wf(self) -> bool {
        &&& self.flags matches Some(flags) ==> flags.no_duplicates()
        &&& self.services matches Some(services) ==> services.items.len() > 0
            && services.items.no_duplicates()
    }
}

} // verus!
