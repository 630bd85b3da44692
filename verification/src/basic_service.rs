//! The services that the Bluetooth assigned numbers name, each with its
//! 16-bit UUID.

use vstd::prelude::*;
use vstd::string::*;
use crate::text::is_word;

verus! {

/// A service with an assigned 16-bit UUID, under the name that a schema
/// writes for it.
#[derive(Clone, Copy, Debug, PartialEq, Eq, Structural)]
pub enum BasicService {
    GenericAccess,
    GenericAttribute,
    ImmediateAlert,
    LinkLoss,
    TxPower,
    CurrentTime,
    ReferenceTimeUpdate,
    NextDSTChange,
    Glucose,
    HealthThermometer,
    DeviceInformation,
    HeartRate,
    PhoneAlertStatus,
    Battery,
    BloodPressure,
    AlertNotification,
    HumanInterfaceDevice,
    ScanParameters,
    RunnnigSpeedAndCadence,
    AutomationIO,
    CyclingSpeedAndCadence,
    CyclingPower,
    LocationAndNavigation,
    EnvironmentalSensing,
    BodyComposition,
    UserData,
    WeightScale,
    BondManagement,
    ContinousGlucoseMonitoring,
    InternetProtocolSupport,
    IndoorPositioning,
    PulseOximeter,
    HTTPProxy,
    TransportDiscovery,
    ObjectTransfer,
    FitnessMachine,
    MeshProvisioning,
    MeshProxy,
    ReconnectionConfiguration,
    InsulinDelivery,
    BinarySensor,
    EmergencyConfiguration,
    AuthorizationControl,
    PhysicalActivityMonitor,
    ElapsedTime,
    GenericHealthSensor,
    AudioInputControl,
    VolumeControl,
    VolumeOffsetControl,
    CoordinatedSetIdentification,
    DeviceTime,
    MediaControl,
    GenericMediaControl,
    ConstantToneExtension,
    TelephoneBearer,
    GenericTelephoneBearer,
    MicrophoneControl,
    AudioStreamControl,
    BroadcastAudioScan,
    PublishedAudioScan,
    BasicAudioCapabilities,
    BroadcastAudioAnnouncement,
    CommonAudio,
    HearingAccess,
    TelephonyAndMediaAudio,
    PublicBroadcastAnnouncement,
    ElectronicShelfLabel,
    GamingAudio,
    MeshProxySolicitation,
}

/// The service that a name stands for, if it is assigned.
#[verifier::opaque]
pub open spec fn basic_service(name: Seq<u8>) -> Option<BasicService> {
    if name == "GenericAccess".spec_bytes() {
        Some(BasicService::GenericAccess)
    }     else if name == "GenericAttribute".spec_bytes() {
        Some(BasicService::GenericAttribute)
    }     else if name == "ImmediateAlert".spec_bytes() {
        Some(BasicService::ImmediateAlert)
    }     else if name == "LinkLoss".spec_bytes() {
        Some(BasicService::LinkLoss)
    }     else if name == "TxPower".spec_bytes() {
        Some(BasicService::TxPower)
    }     else if name == "CurrentTime".spec_bytes() {
        Some(BasicService::CurrentTime)
    }     else if name == "ReferenceTimeUpdate".spec_bytes() {
        Some(BasicService::ReferenceTimeUpdate)
    }     else if name == "NextDSTChange".spec_bytes() {
        Some(BasicService::NextDSTChange)
    }     else if name == "Glucose".spec_bytes() {
        Some(BasicService::Glucose)
    }     else if name == "HealthThermometer".spec_bytes() {
        Some(BasicService::HealthThermometer)
    }     else if name == "DeviceInformation".spec_bytes() {
        Some(BasicService::DeviceInformation)
    }     else if name == "HeartRate".spec_bytes() {
        Some(BasicService::HeartRate)
    }     else if name == "PhoneAlertStatus".spec_bytes() {
        Some(BasicService::PhoneAlertStatus)
    }     else if name == "Battery".spec_bytes() {
        Some(BasicService::Battery)
    }     else if name == "BloodPressure".spec_bytes() {
        Some(BasicService::BloodPressure)
    }     else if name == "AlertNotification".spec_bytes() {
        Some(BasicService::AlertNotification)
    }     else if name == "HumanInterfaceDevice".spec_bytes() {
        Some(BasicService::HumanInterfaceDevice)
    }     else if name == "ScanParameters".spec_bytes() {
        Some(BasicService::ScanParameters)
    }     else if name == "RunnnigSpeedAndCadence".spec_bytes() {
        Some(BasicService::RunnnigSpeedAndCadence)
    }     else if name == "AutomationIO".spec_bytes() {
        Some(BasicService::AutomationIO)
    }     else if name == "CyclingSpeedAndCadence".spec_bytes() {
        Some(BasicService::CyclingSpeedAndCadence)
    }     else if name == "CyclingPower".spec_bytes() {
        Some(BasicService::CyclingPower)
    }     else if name == "LocationAndNavigation".spec_bytes() {
        Some(BasicService::LocationAndNavigation)
    }     else if name == "EnvironmentalSensing".spec_bytes() {
        Some(BasicService::EnvironmentalSensing)
    }     else if name == "BodyComposition".spec_bytes() {
        Some(BasicService::BodyComposition)
    }     else if name == "UserData".spec_bytes() {
        Some(BasicService::UserData)
    }     else if name == "WeightScale".spec_bytes() {
        Some(BasicService::WeightScale)
    }     else if name == "BondManagement".spec_bytes() {
        Some(BasicService::BondManagement)
    }     else if name == "ContinousGlucoseMonitoring".spec_bytes() {
        Some(BasicService::ContinousGlucoseMonitoring)
    }     else if name == "InternetProtocolSupport".spec_bytes() {
        Some(BasicService::InternetProtocolSupport)
    }     else if name == "IndoorPositioning".spec_bytes() {
        Some(BasicService::IndoorPositioning)
    }     else if name == "PulseOximeter".spec_bytes() {
        Some(BasicService::PulseOximeter)
    }     else if name == "HTTPProxy".spec_bytes() {
        Some(BasicService::HTTPProxy)
    }     else if name == "TransportDiscovery".spec_bytes() {
        Some(BasicService::TransportDiscovery)
    }     else if name == "ObjectTransfer".spec_bytes() {
        Some(BasicService::ObjectTransfer)
    }     else if name == "FitnessMachine".spec_bytes() {
        Some(BasicService::FitnessMachine)
    }     else if name == "MeshProvisioning".spec_bytes() {
        Some(BasicService::MeshProvisioning)
    }     else if name == "MeshProxy".spec_bytes() {
        Some(BasicService::MeshProxy)
    }     else if name == "ReconnectionConfiguration".spec_bytes() {
        Some(BasicService::ReconnectionConfiguration)
    }     else if name == "InsulinDelivery".spec_bytes() {
        Some(BasicService::InsulinDelivery)
    }     else if name == "BinarySensor".spec_bytes() {
        Some(BasicService::BinarySensor)
    }     else if name == "EmergencyConfiguration".spec_bytes() {
        Some(BasicService::EmergencyConfiguration)
    }     else if name == "AuthorizationControl".spec_bytes() {
        Some(BasicService::AuthorizationControl)
    }     else if name == "PhysicalActivityMonitor".spec_bytes() {
        Some(BasicService::PhysicalActivityMonitor)
    }     else if name == "ElapsedTime".spec_bytes() {
        Some(BasicService::ElapsedTime)
    }     else if name == "GenericHealthSensor".spec_bytes() {
        Some(BasicService::GenericHealthSensor)
    }     else if name == "AudioInputControl".spec_bytes() {
        Some(BasicService::AudioInputControl)
    }     else if name == "VolumeControl".spec_bytes() {
        Some(BasicService::VolumeControl)
    }     else if name == "VolumeOffsetControl".spec_bytes() {
        Some(BasicService::VolumeOffsetControl)
    }     else if name == "CoordinatedSetIdentification".spec_bytes() {
        Some(BasicService::CoordinatedSetIdentification)
    }     else if name == "DeviceTime".spec_bytes() {
        Some(BasicService::DeviceTime)
    }     else if name == "MediaControl".spec_bytes() {
        Some(BasicService::MediaControl)
    }     else if name == "GenericMediaControl".spec_bytes() {
        Some(BasicService::GenericMediaControl)
    }     else if name == "ConstantToneExtension".spec_bytes() {
        Some(BasicService::ConstantToneExtension)
    }     else if name == "TelephoneBearer".spec_bytes() {
        Some(BasicService::TelephoneBearer)
    }     else if name == "GenericTelephoneBearer".spec_bytes() {
        Some(BasicService::GenericTelephoneBearer)
    }     else if name == "MicrophoneControl".spec_bytes() {
        Some(BasicService::MicrophoneControl)
    }     else if name == "AudioStreamControl".spec_bytes() {
        Some(BasicService::AudioStreamControl)
    }     else if name == "BroadcastAudioScan".spec_bytes() {
        Some(BasicService::BroadcastAudioScan)
    }     else if name == "PublishedAudioScan".spec_bytes() {
        Some(BasicService::PublishedAudioScan)
    }     else if name == "BasicAudioCapabilities".spec_bytes() {
        Some(BasicService::BasicAudioCapabilities)
    }     else if name == "BroadcastAudioAnnouncement".spec_bytes() {
        Some(BasicService::BroadcastAudioAnnouncement)
    }     else if name == "CommonAudio".spec_bytes() {
        Some(BasicService::CommonAudio)
    }     else if name == "HearingAccess".spec_bytes() {
        Some(BasicService::HearingAccess)
    }     else if name == "TelephonyAndMediaAudio".spec_bytes() {
        Some(BasicService::TelephonyAndMediaAudio)
    }     else if name == "PublicBroadcastAnnouncement".spec_bytes() {
        Some(BasicService::PublicBroadcastAnnouncement)
    }     else if name == "ElectronicShelfLabel".spec_bytes() {
        Some(BasicService::ElectronicShelfLabel)
    }     else if name == "GamingAudio".spec_bytes() {
        Some(BasicService::GamingAudio)
    }     else if name == "MeshProxySolicitation".spec_bytes() {
        Some(BasicService::MeshProxySolicitation)
    } else {
        None
    }
}

impl BasicService {
    /// The 16-bit UUID assigned to the service.
    pub open spec fn spec_uuid16(self) -> u16 {
        match self {
            BasicService::GenericAccess => 0x1800,
            BasicService::GenericAttribute => 0x1801,
            BasicService::ImmediateAlert => 0x1802,
            BasicService::LinkLoss => 0x1803,
            BasicService::TxPower => 0x1804,
            BasicService::CurrentTime => 0x1805,
            BasicService::ReferenceTimeUpdate => 0x1806,
            BasicService::NextDSTChange => 0x1807,
            BasicService::Glucose => 0x1808,
            BasicService::HealthThermometer => 0x1809,
            BasicService::DeviceInformation => 0x180a,
            BasicService::HeartRate => 0x180d,
            BasicService::PhoneAlertStatus => 0x180e,
            BasicService::Battery => 0x180f,
            BasicService::BloodPressure => 0x1810,
            BasicService::AlertNotification => 0x1811,
            BasicService::HumanInterfaceDevice => 0x1812,
            BasicService::ScanParameters => 0x1813,
            BasicService::RunnnigSpeedAndCadence => 0x1814,
            BasicService::AutomationIO => 0x1815,
            BasicService::CyclingSpeedAndCadence => 0x1816,
            BasicService::CyclingPower => 0x1818,
            BasicService::LocationAndNavigation => 0x1819,
            BasicService::EnvironmentalSensing => 0x181a,
            BasicService::BodyComposition => 0x181b,
            BasicService::UserData => 0x181c,
            BasicService::WeightScale => 0x181d,
            BasicService::BondManagement => 0x181e,
            BasicService::ContinousGlucoseMonitoring => 0x181f,
            BasicService::InternetProtocolSupport => 0x1820,
            BasicService::IndoorPositioning => 0x1821,
            BasicService::PulseOximeter => 0x1822,
            BasicService::HTTPProxy => 0x1823,
            BasicService::TransportDiscovery => 0x1824,
            BasicService::ObjectTransfer => 0x1825,
            BasicService::FitnessMachine => 0x1826,
            BasicService::MeshProvisioning => 0x1827,
            BasicService::MeshProxy => 0x1828,
            BasicService::ReconnectionConfiguration => 0x1829,
            BasicService::InsulinDelivery => 0x183a,
            BasicService::BinarySensor => 0x183b,
            BasicService::EmergencyConfiguration => 0x183c,
            BasicService::AuthorizationControl => 0x183d,
            BasicService::PhysicalActivityMonitor => 0x183e,
            BasicService::ElapsedTime => 0x183f,
            BasicService::GenericHealthSensor => 0x1840,
            BasicService::AudioInputControl => 0x1843,
            BasicService::VolumeControl => 0x1844,
            BasicService::VolumeOffsetControl => 0x1845,
            BasicService::CoordinatedSetIdentification => 0x1846,
            BasicService::DeviceTime => 0x1847,
            BasicService::MediaControl => 0x1848,
            BasicService::GenericMediaControl => 0x1849,
            BasicService::ConstantToneExtension => 0x184a,
            BasicService::TelephoneBearer => 0x184b,
            BasicService::GenericTelephoneBearer => 0x184c,
            BasicService::MicrophoneControl => 0x184d,
            BasicService::AudioStreamControl => 0x184e,
            BasicService::BroadcastAudioScan => 0x184f,
            BasicService::PublishedAudioScan => 0x1850,
            BasicService::BasicAudioCapabilities => 0x1851,
            BasicService::BroadcastAudioAnnouncement => 0x1852,
            BasicService::CommonAudio => 0x1853,
            BasicService::HearingAccess => 0x1854,
            BasicService::TelephonyAndMediaAudio => 0x1855,
            BasicService::PublicBroadcastAnnouncement => 0x1856,
            BasicService::ElectronicShelfLabel => 0x1857,
            BasicService::GamingAudio => 0x1858,
            BasicService::MeshProxySolicitation => 0x1859,
        }
    }

    /// The 16-bit UUID assigned to the service.
    #[verifier::when_used_as_spec(spec_uuid16)]
    pub fn uuid16(self) -> (r: u16)
        ensures
            r == self.spec_uuid16(),
    {
        match self {
            BasicService::GenericAccess => 0x1800,
            BasicService::GenericAttribute => 0x1801,
            BasicService::ImmediateAlert => 0x1802,
            BasicService::LinkLoss => 0x1803,
            BasicService::TxPower => 0x1804,
            BasicService::CurrentTime => 0x1805,
            BasicService::ReferenceTimeUpdate => 0x1806,
            BasicService::NextDSTChange => 0x1807,
            BasicService::Glucose => 0x1808,
            BasicService::HealthThermometer => 0x1809,
            BasicService::DeviceInformation => 0x180a,
            BasicService::HeartRate => 0x180d,
            BasicService::PhoneAlertStatus => 0x180e,
            BasicService::Battery => 0x180f,
            BasicService::BloodPressure => 0x1810,
            BasicService::AlertNotification => 0x1811,
            BasicService::HumanInterfaceDevice => 0x1812,
            BasicService::ScanParameters => 0x1813,
            BasicService::RunnnigSpeedAndCadence => 0x1814,
            BasicService::AutomationIO => 0x1815,
            BasicService::CyclingSpeedAndCadence => 0x1816,
            BasicService::CyclingPower => 0x1818,
            BasicService::LocationAndNavigation => 0x1819,
            BasicService::EnvironmentalSensing => 0x181a,
            BasicService::BodyComposition => 0x181b,
            BasicService::UserData => 0x181c,
            BasicService::WeightScale => 0x181d,
            BasicService::BondManagement => 0x181e,
            BasicService::ContinousGlucoseMonitoring => 0x181f,
            BasicService::InternetProtocolSupport => 0x1820,
            BasicService::IndoorPositioning => 0x1821,
            BasicService::PulseOximeter => 0x1822,
            BasicService::HTTPProxy => 0x1823,
            BasicService::TransportDiscovery => 0x1824,
            BasicService::ObjectTransfer => 0x1825,
            BasicService::FitnessMachine => 0x1826,
            BasicService::MeshProvisioning => 0x1827,
            BasicService::MeshProxy => 0x1828,
            BasicService::ReconnectionConfiguration => 0x1829,
            BasicService::InsulinDelivery => 0x183a,
            BasicService::BinarySensor => 0x183b,
            BasicService::EmergencyConfiguration => 0x183c,
            BasicService::AuthorizationControl => 0x183d,
            BasicService::PhysicalActivityMonitor => 0x183e,
            BasicService::ElapsedTime => 0x183f,
            BasicService::GenericHealthSensor => 0x1840,
            BasicService::AudioInputControl => 0x1843,
            BasicService::VolumeControl => 0x1844,
            BasicService::VolumeOffsetControl => 0x1845,
            BasicService::CoordinatedSetIdentification => 0x1846,
            BasicService::DeviceTime => 0x1847,
            BasicService::MediaControl => 0x1848,
            BasicService::GenericMediaControl => 0x1849,
            BasicService::ConstantToneExtension => 0x184a,
            BasicService::TelephoneBearer => 0x184b,
            BasicService::GenericTelephoneBearer => 0x184c,
            BasicService::MicrophoneControl => 0x184d,
            BasicService::AudioStreamControl => 0x184e,
            BasicService::BroadcastAudioScan => 0x184f,
            BasicService::PublishedAudioScan => 0x1850,
            BasicService::BasicAudioCapabilities => 0x1851,
            BasicService::BroadcastAudioAnnouncement => 0x1852,
            BasicService::CommonAudio => 0x1853,
            BasicService::HearingAccess => 0x1854,
            BasicService::TelephonyAndMediaAudio => 0x1855,
            BasicService::PublicBroadcastAnnouncement => 0x1856,
            BasicService::ElectronicShelfLabel => 0x1857,
            BasicService::GamingAudio => 0x1858,
            BasicService::MeshProxySolicitation => 0x1859,
        }
    }

    /// The name under which a schema writes the service.
    pub open spec fn spec_name(self) -> Seq<char> {
        match self {
            BasicService::GenericAccess => "GenericAccess"@,
            BasicService::GenericAttribute => "GenericAttribute"@,
            BasicService::ImmediateAlert => "ImmediateAlert"@,
            BasicService::LinkLoss => "LinkLoss"@,
            BasicService::TxPower => "TxPower"@,
            BasicService::CurrentTime => "CurrentTime"@,
            BasicService::ReferenceTimeUpdate => "ReferenceTimeUpdate"@,
            BasicService::NextDSTChange => "NextDSTChange"@,
            BasicService::Glucose => "Glucose"@,
            BasicService::HealthThermometer => "HealthThermometer"@,
            BasicService::DeviceInformation => "DeviceInformation"@,
            BasicService::HeartRate => "HeartRate"@,
            BasicService::PhoneAlertStatus => "PhoneAlertStatus"@,
            BasicService::Battery => "Battery"@,
            BasicService::BloodPressure => "BloodPressure"@,
            BasicService::AlertNotification => "AlertNotification"@,
            BasicService::HumanInterfaceDevice => "HumanInterfaceDevice"@,
            BasicService::ScanParameters => "ScanParameters"@,
            BasicService::RunnnigSpeedAndCadence => "RunnnigSpeedAndCadence"@,
            BasicService::AutomationIO => "AutomationIO"@,
            BasicService::CyclingSpeedAndCadence => "CyclingSpeedAndCadence"@,
            BasicService::CyclingPower => "CyclingPower"@,
            BasicService::LocationAndNavigation => "LocationAndNavigation"@,
            BasicService::EnvironmentalSensing => "EnvironmentalSensing"@,
            BasicService::BodyComposition => "BodyComposition"@,
            BasicService::UserData => "UserData"@,
            BasicService::WeightScale => "WeightScale"@,
            BasicService::BondManagement => "BondManagement"@,
            BasicService::ContinousGlucoseMonitoring => "ContinousGlucoseMonitoring"@,
            BasicService::InternetProtocolSupport => "InternetProtocolSupport"@,
            BasicService::IndoorPositioning => "IndoorPositioning"@,
            BasicService::PulseOximeter => "PulseOximeter"@,
            BasicService::HTTPProxy => "HTTPProxy"@,
            BasicService::TransportDiscovery => "TransportDiscovery"@,
            BasicService::ObjectTransfer => "ObjectTransfer"@,
            BasicService::FitnessMachine => "FitnessMachine"@,
            BasicService::MeshProvisioning => "MeshProvisioning"@,
            BasicService::MeshProxy => "MeshProxy"@,
            BasicService::ReconnectionConfiguration => "ReconnectionConfiguration"@,
            BasicService::InsulinDelivery => "InsulinDelivery"@,
            BasicService::BinarySensor => "BinarySensor"@,
            BasicService::EmergencyConfiguration => "EmergencyConfiguration"@,
            BasicService::AuthorizationControl => "AuthorizationControl"@,
            BasicService::PhysicalActivityMonitor => "PhysicalActivityMonitor"@,
            BasicService::ElapsedTime => "ElapsedTime"@,
            BasicService::GenericHealthSensor => "GenericHealthSensor"@,
            BasicService::AudioInputControl => "AudioInputControl"@,
            BasicService::VolumeControl => "VolumeControl"@,
            BasicService::VolumeOffsetControl => "VolumeOffsetControl"@,
            BasicService::CoordinatedSetIdentification => "CoordinatedSetIdentification"@,
            BasicService::DeviceTime => "DeviceTime"@,
            BasicService::MediaControl => "MediaControl"@,
            BasicService::GenericMediaControl => "GenericMediaControl"@,
            BasicService::ConstantToneExtension => "ConstantToneExtension"@,
            BasicService::TelephoneBearer => "TelephoneBearer"@,
            BasicService::GenericTelephoneBearer => "GenericTelephoneBearer"@,
            BasicService::MicrophoneControl => "MicrophoneControl"@,
            BasicService::AudioStreamControl => "AudioStreamControl"@,
            BasicService::BroadcastAudioScan => "BroadcastAudioScan"@,
            BasicService::PublishedAudioScan => "PublishedAudioScan"@,
            BasicService::BasicAudioCapabilities => "BasicAudioCapabilities"@,
            BasicService::BroadcastAudioAnnouncement => "BroadcastAudioAnnouncement"@,
            BasicService::CommonAudio => "CommonAudio"@,
            BasicService::HearingAccess => "HearingAccess"@,
            BasicService::TelephonyAndMediaAudio => "TelephonyAndMediaAudio"@,
            BasicService::PublicBroadcastAnnouncement => "PublicBroadcastAnnouncement"@,
            BasicService::ElectronicShelfLabel => "ElectronicShelfLabel"@,
            BasicService::GamingAudio => "GamingAudio"@,
            BasicService::MeshProxySolicitation => "MeshProxySolicitation"@,
        }
    }

    /// The name under which a schema writes the service.
    pub fn name(self) -> (r: &'static str)
        ensures
            r@ == self.spec_name(),
    {
        match self {
            BasicService::GenericAccess => "GenericAccess",
            BasicService::GenericAttribute => "GenericAttribute",
            BasicService::ImmediateAlert => "ImmediateAlert",
            BasicService::LinkLoss => "LinkLoss",
            BasicService::TxPower => "TxPower",
            BasicService::CurrentTime => "CurrentTime",
            BasicService::ReferenceTimeUpdate => "ReferenceTimeUpdate",
            BasicService::NextDSTChange => "NextDSTChange",
            BasicService::Glucose => "Glucose",
            BasicService::HealthThermometer => "HealthThermometer",
            BasicService::DeviceInformation => "DeviceInformation",
            BasicService::HeartRate => "HeartRate",
            BasicService::PhoneAlertStatus => "PhoneAlertStatus",
            BasicService::Battery => "Battery",
            BasicService::BloodPressure => "BloodPressure",
            BasicService::AlertNotification => "AlertNotification",
            BasicService::HumanInterfaceDevice => "HumanInterfaceDevice",
            BasicService::ScanParameters => "ScanParameters",
            BasicService::RunnnigSpeedAndCadence => "RunnnigSpeedAndCadence",
            BasicService::AutomationIO => "AutomationIO",
            BasicService::CyclingSpeedAndCadence => "CyclingSpeedAndCadence",
            BasicService::CyclingPower => "CyclingPower",
            BasicService::LocationAndNavigation => "LocationAndNavigation",
            BasicService::EnvironmentalSensing => "EnvironmentalSensing",
            BasicService::BodyComposition => "BodyComposition",
            BasicService::UserData => "UserData",
            BasicService::WeightScale => "WeightScale",
            BasicService::BondManagement => "BondManagement",
            BasicService::ContinousGlucoseMonitoring => "ContinousGlucoseMonitoring",
            BasicService::InternetProtocolSupport => "InternetProtocolSupport",
            BasicService::IndoorPositioning => "IndoorPositioning",
            BasicService::PulseOximeter => "PulseOximeter",
            BasicService::HTTPProxy => "HTTPProxy",
            BasicService::TransportDiscovery => "TransportDiscovery",
            BasicService::ObjectTransfer => "ObjectTransfer",
            BasicService::FitnessMachine => "FitnessMachine",
            BasicService::MeshProvisioning => "MeshProvisioning",
            BasicService::MeshProxy => "MeshProxy",
            BasicService::ReconnectionConfiguration => "ReconnectionConfiguration",
            BasicService::InsulinDelivery => "InsulinDelivery",
            BasicService::BinarySensor => "BinarySensor",
            BasicService::EmergencyConfiguration => "EmergencyConfiguration",
            BasicService::AuthorizationControl => "AuthorizationControl",
            BasicService::PhysicalActivityMonitor => "PhysicalActivityMonitor",
            BasicService::ElapsedTime => "ElapsedTime",
            BasicService::GenericHealthSensor => "GenericHealthSensor",
            BasicService::AudioInputControl => "AudioInputControl",
            BasicService::VolumeControl => "VolumeControl",
            BasicService::VolumeOffsetControl => "VolumeOffsetControl",
            BasicService::CoordinatedSetIdentification => "CoordinatedSetIdentification",
            BasicService::DeviceTime => "DeviceTime",
            BasicService::MediaControl => "MediaControl",
            BasicService::GenericMediaControl => "GenericMediaControl",
            BasicService::ConstantToneExtension => "ConstantToneExtension",
            BasicService::TelephoneBearer => "TelephoneBearer",
            BasicService::GenericTelephoneBearer => "GenericTelephoneBearer",
            BasicService::MicrophoneControl => "MicrophoneControl",
            BasicService::AudioStreamControl => "AudioStreamControl",
            BasicService::BroadcastAudioScan => "BroadcastAudioScan",
            BasicService::PublishedAudioScan => "PublishedAudioScan",
            BasicService::BasicAudioCapabilities => "BasicAudioCapabilities",
            BasicService::BroadcastAudioAnnouncement => "BroadcastAudioAnnouncement",
            BasicService::CommonAudio => "CommonAudio",
            BasicService::HearingAccess => "HearingAccess",
            BasicService::TelephonyAndMediaAudio => "TelephonyAndMediaAudio",
            BasicService::PublicBroadcastAnnouncement => "PublicBroadcastAnnouncement",
            BasicService::ElectronicShelfLabel => "ElectronicShelfLabel",
            BasicService::GamingAudio => "GamingAudio",
            BasicService::MeshProxySolicitation => "MeshProxySolicitation",
        }
    }

    /// Reads a service from its name.
    pub fn from_name(name: &[u8]) -> (r: Option<BasicService>)
        ensures
            r == basic_service(name@),
    {
        reveal(basic_service);
        if is_word(name, "GenericAccess") {
            Some(BasicService::GenericAccess)
        }         else if is_word(name, "GenericAttribute") {
            Some(BasicService::GenericAttribute)
        }         else if is_word(name, "ImmediateAlert") {
            Some(BasicService::ImmediateAlert)
        }         else if is_word(name, "LinkLoss") {
            Some(BasicService::LinkLoss)
        }         else if is_word(name, "TxPower") {
            Some(BasicService::TxPower)
        }         else if is_word(name, "CurrentTime") {
            Some(BasicService::CurrentTime)
        }         else if is_word(name, "ReferenceTimeUpdate") {
            Some(BasicService::ReferenceTimeUpdate)
        }         else if is_word(name, "NextDSTChange") {
            Some(BasicService::NextDSTChange)
        }         else if is_word(name, "Glucose") {
            Some(BasicService::Glucose)
        }         else if is_word(name, "HealthThermometer") {
            Some(BasicService::HealthThermometer)
        }         else if is_word(name, "DeviceInformation") {
            Some(BasicService::DeviceInformation)
        }         else if is_word(name, "HeartRate") {
            Some(BasicService::HeartRate)
        }         else if is_word(name, "PhoneAlertStatus") {
            Some(BasicService::PhoneAlertStatus)
        }         else if is_word(name, "Battery") {
            Some(BasicService::Battery)
        }         else if is_word(name, "BloodPressure") {
            Some(BasicService::BloodPressure)
        }         else if is_word(name, "AlertNotification") {
            Some(BasicService::AlertNotification)
        }         else if is_word(name, "HumanInterfaceDevice") {
            Some(BasicService::HumanInterfaceDevice)
        }         else if is_word(name, "ScanParameters") {
            Some(BasicService::ScanParameters)
        }         else if is_word(name, "RunnnigSpeedAndCadence") {
            Some(BasicService::RunnnigSpeedAndCadence)
        }         else if is_word(name, "AutomationIO") {
            Some(BasicService::AutomationIO)
        }         else if is_word(name, "CyclingSpeedAndCadence") {
            Some(BasicService::CyclingSpeedAndCadence)
        }         else if is_word(name, "CyclingPower") {
            Some(BasicService::CyclingPower)
        }         else if is_word(name, "LocationAndNavigation") {
            Some(BasicService::LocationAndNavigation)
        }         else if is_word(name, "EnvironmentalSensing") {
            Some(BasicService::EnvironmentalSensing)
        }         else if is_word(name, "BodyComposition") {
            Some(BasicService::BodyComposition)
        }         else if is_word(name, "UserData") {
            Some(BasicService::UserData)
        }         else if is_word(name, "WeightScale") {
            Some(BasicService::WeightScale)
        }         else if is_word(name, "BondManagement") {
            Some(BasicService::BondManagement)
        }         else if is_word(name, "ContinousGlucoseMonitoring") {
            Some(BasicService::ContinousGlucoseMonitoring)
        }         else if is_word(name, "InternetProtocolSupport") {
            Some(BasicService::InternetProtocolSupport)
        }         else if is_word(name, "IndoorPositioning") {
            Some(BasicService::IndoorPositioning)
        }         else if is_word(name, "PulseOximeter") {
            Some(BasicService::PulseOximeter)
        }         else if is_word(name, "HTTPProxy") {
            Some(BasicService::HTTPProxy)
        }         else if is_word(name, "TransportDiscovery") {
            Some(BasicService::TransportDiscovery)
        }         else if is_word(name, "ObjectTransfer") {
            Some(BasicService::ObjectTransfer)
        }         else if is_word(name, "FitnessMachine") {
            Some(BasicService::FitnessMachine)
        }         else if is_word(name, "MeshProvisioning") {
            Some(BasicService::MeshProvisioning)
        }         else if is_word(name, "MeshProxy") {
            Some(BasicService::MeshProxy)
        }         else if is_word(name, "ReconnectionConfiguration") {
            Some(BasicService::ReconnectionConfiguration)
        }         else if is_word(name, "InsulinDelivery") {
            Some(BasicService::InsulinDelivery)
        }         else if is_word(name, "BinarySensor") {
            Some(BasicService::BinarySensor)
        }         else if is_word(name, "EmergencyConfiguration") {
            Some(BasicService::EmergencyConfiguration)
        }         else if is_word(name, "AuthorizationControl") {
            Some(BasicService::AuthorizationControl)
        }         else if is_word(name, "PhysicalActivityMonitor") {
            Some(BasicService::PhysicalActivityMonitor)
        }         else if is_word(name, "ElapsedTime") {
            Some(BasicService::ElapsedTime)
        }         else if is_word(name, "GenericHealthSensor") {
            Some(BasicService::GenericHealthSensor)
        }         else if is_word(name, "AudioInputControl") {
            Some(BasicService::AudioInputControl)
        }         else if is_word(name, "VolumeControl") {
            Some(BasicService::VolumeControl)
        }         else if is_word(name, "VolumeOffsetControl") {
            Some(BasicService::VolumeOffsetControl)
        }         else if is_word(name, "CoordinatedSetIdentification") {
            Some(BasicService::CoordinatedSetIdentification)
        }         else if is_word(name, "DeviceTime") {
            Some(BasicService::DeviceTime)
        }         else if is_word(name, "MediaControl") {
            Some(BasicService::MediaControl)
        }         else if is_word(name, "GenericMediaControl") {
            Some(BasicService::GenericMediaControl)
        }         else if is_word(name, "ConstantToneExtension") {
            Some(BasicService::ConstantToneExtension)
        }         else if is_word(name, "TelephoneBearer") {
            Some(BasicService::TelephoneBearer)
        }         else if is_word(name, "GenericTelephoneBearer") {
            Some(BasicService::GenericTelephoneBearer)
        }         else if is_word(name, "MicrophoneControl") {
            Some(BasicService::MicrophoneControl)
        }         else if is_word(name, "AudioStreamControl") {
            Some(BasicService::AudioStreamControl)
        }         else if is_word(name, "BroadcastAudioScan") {
            Some(BasicService::BroadcastAudioScan)
        }         else if is_word(name, "PublishedAudioScan") {
            Some(BasicService::PublishedAudioScan)
        }         else if is_word(name, "BasicAudioCapabilities") {
            Some(BasicService::BasicAudioCapabilities)
        }         else if is_word(name, "BroadcastAudioAnnouncement") {
            Some(BasicService::BroadcastAudioAnnouncement)
        }         else if is_word(name, "CommonAudio") {
            Some(BasicService::CommonAudio)
        }         else if is_word(name, "HearingAccess") {
            Some(BasicService::HearingAccess)
        }         else if is_word(name, "TelephonyAndMediaAudio") {
            Some(BasicService::TelephonyAndMediaAudio)
        }         else if is_word(name, "PublicBroadcastAnnouncement") {
            Some(BasicService::PublicBroadcastAnnouncement)
        }         else if is_word(name, "ElectronicShelfLabel") {
            Some(BasicService::ElectronicShelfLabel)
        }         else if is_word(name, "GamingAudio") {
            Some(BasicService::GamingAudio)
        }         else if is_word(name, "MeshProxySolicitation") {
            Some(BasicService::MeshProxySolicitation)
        } else {
            None
        }
    }
}

} // verus!
