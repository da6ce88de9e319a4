//! DASH7 device types: the company and device numbers that a 64-bit device
//! type is made of, and the application each device type runs.
use vstd::prelude::*;
use crate::text::{decimal, push_decimal, push_str};

verus! {

/// The companies registered with the DASH7 device registry, by number.
#[derive(Debug, Clone, Copy, PartialEq, Eq, Structural)]
pub enum CompanyID {
    Void,
    WizziLab,
    OneSitu,
    MykhailoBorysov,
    IoosBV,
    Kawantech,
    Vestfold,
    WizziLabDemo,
    MunichRE,
    Rezohm,
    EXO,
    MTNMobileIntelligenceLab,
    ATMAConseil,
    Master,
    BuraphaUniversity,
    CAD42,
    SenseEletronica,
    HSR,
    Nornir,
    Freelancer,
    OBDO,
    NolamEmbeddedSystems,
    Master1,
    MSSETelecomParis,
    WiFindIt,
    SiiliSolutionsOyj,
    ReachTechnology,
    Hublex,
    HEIA,
    DPControl,
    Qotto,
    KKRE,
}

impl CompanyID {
    /// The number that stands for each variant.
    pub open spec fn spec_code(self) -> u32 {
        match self {
            CompanyID::Void => 0x00000000u32,
            CompanyID::WizziLab => 0x01BC50C7u32,
            CompanyID::OneSitu => 0x0A3EF31Fu32,
            CompanyID::MykhailoBorysov => 0x0752386Au32,
            CompanyID::IoosBV => 0x0B564D5Cu32,
            CompanyID::Kawantech => 0x13ED6E5Fu32,
            CompanyID::Vestfold => 0x15060001u32,
            CompanyID::WizziLabDemo => 0x15070000u32,
            CompanyID::MunichRE => 0x16D62CE1u32,
            CompanyID::Rezohm => 0x1E65885Fu32,
            CompanyID::EXO => 0x2911FAFCu32,
            CompanyID::MTNMobileIntelligenceLab => 0x29D022DBu32,
            CompanyID::ATMAConseil => 0x30E835BDu32,
            CompanyID::Master => 0x32F83780u32,
            CompanyID::BuraphaUniversity => 0x3430BA94u32,
            CompanyID::CAD42 => 0x349D34D7u32,
            CompanyID::SenseEletronica => 0x381874B2u32,
            CompanyID::HSR => 0x39EAD71Bu32,
            CompanyID::Nornir => 0x3B774F4Au32,
            CompanyID::Freelancer => 0x4A916715u32,
            CompanyID::OBDO => 0x4B8E22EDu32,
            CompanyID::NolamEmbeddedSystems => 0x50EC4091u32,
            CompanyID::Master1 => 0x591302E6u32,
            CompanyID::MSSETelecomParis => 0x5935BD02u32,
            CompanyID::WiFindIt => 0x5A751604u32,
            CompanyID::SiiliSolutionsOyj => 0x5E50D2D3u32,
            CompanyID::ReachTechnology => 0x5F47ED8Au32,
            CompanyID::Hublex => 0x5F8FADA5u32,
            CompanyID::HEIA => 0x631C9326u32,
            CompanyID::DPControl => 0x6BC924CFu32,
            CompanyID::Qotto => 0x77FAA07Au32,
            CompanyID::KKRE => 0x7EABEEDEu32,
        }
    }

    /// The variant that a number stands for, if any.
    pub open spec fn spec_from_code(n: u32) -> Option<CompanyID> {
        match n {
            0x00000000u32 => Some(CompanyID::Void),
            0x01BC50C7u32 => Some(CompanyID::WizziLab),
            0x0A3EF31Fu32 => Some(CompanyID::OneSitu),
            0x0752386Au32 => Some(CompanyID::MykhailoBorysov),
            0x0B564D5Cu32 => Some(CompanyID::IoosBV),
            0x13ED6E5Fu32 => Some(CompanyID::Kawantech),
            0x15060001u32 => Some(CompanyID::Vestfold),
            0x15070000u32 => Some(CompanyID::WizziLabDemo),
            0x16D62CE1u32 => Some(CompanyID::MunichRE),
            0x1E65885Fu32 => Some(CompanyID::Rezohm),
            0x2911FAFCu32 => Some(CompanyID::EXO),
            0x29D022DBu32 => Some(CompanyID::MTNMobileIntelligenceLab),
            0x30E835BDu32 => Some(CompanyID::ATMAConseil),
            0x32F83780u32 => Some(CompanyID::Master),
            0x3430BA94u32 => Some(CompanyID::BuraphaUniversity),
            0x349D34D7u32 => Some(CompanyID::CAD42),
            0x381874B2u32 => Some(CompanyID::SenseEletronica),
            0x39EAD71Bu32 => Some(CompanyID::HSR),
            0x3B774F4Au32 => Some(CompanyID::Nornir),
            0x4A916715u32 => Some(CompanyID::Freelancer),
            0x4B8E22EDu32 => Some(CompanyID::OBDO),
            0x50EC4091u32 => Some(CompanyID::NolamEmbeddedSystems),
            0x591302E6u32 => Some(CompanyID::Master1),
            0x5935BD02u32 => Some(CompanyID::MSSETelecomParis),
            0x5A751604u32 => Some(CompanyID::WiFindIt),
            0x5E50D2D3u32 => Some(CompanyID::SiiliSolutionsOyj),
            0x5F47ED8Au32 => Some(CompanyID::ReachTechnology),
            0x5F8FADA5u32 => Some(CompanyID::Hublex),
            0x631C9326u32 => Some(CompanyID::HEIA),
            0x6BC924CFu32 => Some(CompanyID::DPControl),
            0x77FAA07Au32 => Some(CompanyID::Qotto),
            0x7EABEEDEu32 => Some(CompanyID::KKRE),
            _ => None,
        }
    }

    /// The number of the variant (`IntoPrimitive`).
    pub fn code(self) -> (r: u32)
        ensures
            r == self.spec_code(),
    {
        match self {
            CompanyID::Void => 0x00000000,
            CompanyID::WizziLab => 0x01BC50C7,
            CompanyID::OneSitu => 0x0A3EF31F,
            CompanyID::MykhailoBorysov => 0x0752386A,
            CompanyID::IoosBV => 0x0B564D5C,
            CompanyID::Kawantech => 0x13ED6E5F,
            CompanyID::Vestfold => 0x15060001,
            CompanyID::WizziLabDemo => 0x15070000,
            CompanyID::MunichRE => 0x16D62CE1,
            CompanyID::Rezohm => 0x1E65885F,
            CompanyID::EXO => 0x2911FAFC,
            CompanyID::MTNMobileIntelligenceLab => 0x29D022DB,
            CompanyID::ATMAConseil => 0x30E835BD,
            CompanyID::Master => 0x32F83780,
            CompanyID::BuraphaUniversity => 0x3430BA94,
            CompanyID::CAD42 => 0x349D34D7,
            CompanyID::SenseEletronica => 0x381874B2,
            CompanyID::HSR => 0x39EAD71B,
            CompanyID::Nornir => 0x3B774F4A,
            CompanyID::Freelancer => 0x4A916715,
            CompanyID::OBDO => 0x4B8E22ED,
            CompanyID::NolamEmbeddedSystems => 0x50EC4091,
            CompanyID::Master1 => 0x591302E6,
            CompanyID::MSSETelecomParis => 0x5935BD02,
            CompanyID::WiFindIt => 0x5A751604,
            CompanyID::SiiliSolutionsOyj => 0x5E50D2D3,
            CompanyID::ReachTechnology => 0x5F47ED8A,
            CompanyID::Hublex => 0x5F8FADA5,
            CompanyID::HEIA => 0x631C9326,
            CompanyID::DPControl => 0x6BC924CF,
            CompanyID::Qotto => 0x77FAA07A,
            CompanyID::KKRE => 0x7EABEEDE,
        }
    }

    /// The variant of a number (`TryFromPrimitive`); `None` for a number
    /// that stands for no variant.
    pub fn from_code(n: u32) -> (r: Option<CompanyID>)
        ensures
            r == Self::spec_from_code(n),
    {
        match n {
            0x00000000 => Some(CompanyID::Void),
            0x01BC50C7 => Some(CompanyID::WizziLab),
            0x0A3EF31F => Some(CompanyID::OneSitu),
            0x0752386A => Some(CompanyID::MykhailoBorysov),
            0x0B564D5C => Some(CompanyID::IoosBV),
            0x13ED6E5F => Some(CompanyID::Kawantech),
            0x15060001 => Some(CompanyID::Vestfold),
            0x15070000 => Some(CompanyID::WizziLabDemo),
            0x16D62CE1 => Some(CompanyID::MunichRE),
            0x1E65885F => Some(CompanyID::Rezohm),
            0x2911FAFC => Some(CompanyID::EXO),
            0x29D022DB => Some(CompanyID::MTNMobileIntelligenceLab),
            0x30E835BD => Some(CompanyID::ATMAConseil),
            0x32F83780 => Some(CompanyID::Master),
            0x3430BA94 => Some(CompanyID::BuraphaUniversity),
            0x349D34D7 => Some(CompanyID::CAD42),
            0x381874B2 => Some(CompanyID::SenseEletronica),
            0x39EAD71B => Some(CompanyID::HSR),
            0x3B774F4A => Some(CompanyID::Nornir),
            0x4A916715 => Some(CompanyID::Freelancer),
            0x4B8E22ED => Some(CompanyID::OBDO),
            0x50EC4091 => Some(CompanyID::NolamEmbeddedSystems),
            0x591302E6 => Some(CompanyID::Master1),
            0x5935BD02 => Some(CompanyID::MSSETelecomParis),
            0x5A751604 => Some(CompanyID::WiFindIt),
            0x5E50D2D3 => Some(CompanyID::SiiliSolutionsOyj),
            0x5F47ED8A => Some(CompanyID::ReachTechnology),
            0x5F8FADA5 => Some(CompanyID::Hublex),
            0x631C9326 => Some(CompanyID::HEIA),
            0x6BC924CF => Some(CompanyID::DPControl),
            0x77FAA07A => Some(CompanyID::Qotto),
            0x7EABEEDE => Some(CompanyID::KKRE),
            _ => None,
        }
    }

    /// Every variant is read back from its own number, and a number that
    /// reads as a variant is that variant's number.
    pub proof fn lemma_code_roundtrip(self, n: u32)
        ensures
            Self::spec_from_code(self.spec_code()) == Some(self),
            Self::spec_from_code(n) matches Some(e) ==> e.spec_code() == n,
    {
    }

    /// Each variant is read from the number registered for it and from no
    /// other: a number that reads as `e` is `e`'s registered number.
    pub proof fn lemma_registered_codes(n: u32, e: CompanyID)
        requires
            CompanyID::spec_from_code(n) == Some(e),
        ensures
            e is Void <==> n == 0x00000000u32,
            e is WizziLab <==> n == 0x01BC50C7u32,
            e is OneSitu <==> n == 0x0A3EF31Fu32,
            e is MykhailoBorysov <==> n == 0x0752386Au32,
            e is IoosBV <==> n == 0x0B564D5Cu32,
            e is Kawantech <==> n == 0x13ED6E5Fu32,
            e is Vestfold <==> n == 0x15060001u32,
            e is WizziLabDemo <==> n == 0x15070000u32,
            e is MunichRE <==> n == 0x16D62CE1u32,
            e is Rezohm <==> n == 0x1E65885Fu32,
            e is EXO <==> n == 0x2911FAFCu32,
            e is MTNMobileIntelligenceLab <==> n == 0x29D022DBu32,
            e is ATMAConseil <==> n == 0x30E835BDu32,
            e is Master <==> n == 0x32F83780u32,
            e is BuraphaUniversity <==> n == 0x3430BA94u32,
            e is CAD42 <==> n == 0x349D34D7u32,
            e is SenseEletronica <==> n == 0x381874B2u32,
            e is HSR <==> n == 0x39EAD71Bu32,
            e is Nornir <==> n == 0x3B774F4Au32,
            e is Freelancer <==> n == 0x4A916715u32,
            e is OBDO <==> n == 0x4B8E22EDu32,
            e is NolamEmbeddedSystems <==> n == 0x50EC4091u32,
            e is Master1 <==> n == 0x591302E6u32,
            e is MSSETelecomParis <==> n == 0x5935BD02u32,
            e is WiFindIt <==> n == 0x5A751604u32,
            e is SiiliSolutionsOyj <==> n == 0x5E50D2D3u32,
            e is ReachTechnology <==> n == 0x5F47ED8Au32,
            e is Hublex <==> n == 0x5F8FADA5u32,
            e is HEIA <==> n == 0x631C9326u32,
            e is DPControl <==> n == 0x6BC924CFu32,
            e is Qotto <==> n == 0x77FAA07Au32,
            e is KKRE <==> n == 0x7EABEEDEu32,
    {
    }
}

/// The devices of WizziLab, by number.
#[derive(Debug, Clone, Copy, PartialEq, Eq, Structural)]
pub enum WizziLabDevice {
    GatewayModem,
    Wisense,
    Wisense2DemoLoRa,
    RefHost,
    Blinker,
    IDI005,
    OTABootloader,
    LoRaAlarm,
    WMBlank,
    D7A1xDemoSensors,
    D7Aalarm,
    D7Atestemitter,
    D7A1xDemoSendFileData,
    D7A1xDemoSendFileDataAndForget,
    D7A1xDemoReceiveFileData,
    D7ALoRaWAN,
    D7A1xDemoBigFile,
    D7A1xDemoCUP,
    D7ADemoPicture,
    HelloWorld,
    ReachTechAnchor,
    RFLSimulation,
    D7ALocalisation,
    PacketsStats,
    WultDemo,
    WgateProModem,
    WoltUWB,
    WoltD7,
    Wult,
    USpaceDemo,
    USpace,
    USpaceCertif,
    CrowdScan,
    CertifFSK,
    Certif,
    Dash7Meter,
    WBeacon,
    D7AFileSystem,
    D7AMote,
    RTUWBModem,
    WMTrack,
    KinderSafeDemo,
    HostVoid,
    VestfoldBandDemo,
    GatewayHost,
    GatewaySecondaryModem,
    GatewayHostHybrid,
    VirtualGateway,
    InfrastructureMonitorer,
    GatewayHostVestfold,
    GatewaySecondaryModemVestfold,
    StubModem,
    D7ATestReceiver,
    FRACTIV,
    Wisense2,
    Wisense2Demo,
    Hostref,
    DisplayDemo,
    LoralarmDemo,
    Dash7LoRaDemo,
    WisenseMW,
    WisenseMDemo,
    Wisp,
    WispAir,
    WispLink,
    WispGaz,
    Vestfold,
    WFITagDemo,
    WFIRemote,
    WISPIridium,
    IridiumTracker,
    Wiswitch,
    Wistof,
    AiforsiteAnchor,
    WISPDaherSlave,
    WispMate,
    WispEngine,
    WispDaherMaster,
    WoltUWBTag,
    WoltUWBAnchor,
    WPCOM,
    UguardController,
    UguardPeripheral,
    USpot,
    WoltMeter,
    WispLight,
    WispSH,
    UguardTag,
    WP100,
    UguardSpot,
    WP300,
    MotionConnect,
    AirConnect,
    Wistofdemo,
    BLEBeaconEddystone,
    BLEBeaconiBeacon,
    StubCSMR,
    LucyTrot,
    NRF91FS,
}

impl WizziLabDevice {
    /// The number that stands for each variant.
    pub open spec fn spec_code(self) -> u32 {
        match self {
            WizziLabDevice::GatewayModem => 0x00000000u32,
            WizziLabDevice::Wisense => 0x00000001u32,
            WizziLabDevice::Wisense2DemoLoRa => 0x00000002u32,
            WizziLabDevice::RefHost => 0x00000003u32,
            WizziLabDevice::Blinker => 0x00000004u32,
            WizziLabDevice::IDI005 => 0x00000005u32,
            WizziLabDevice::OTABootloader => 0x00000006u32,
            WizziLabDevice::LoRaAlarm => 0x00000007u32,
            WizziLabDevice::WMBlank => 0x00000008u32,
            WizziLabDevice::D7A1xDemoSensors => 0x00000010u32,
            WizziLabDevice::D7Aalarm => 0x00000011u32,
            WizziLabDevice::D7Atestemitter => 0x00000012u32,
            WizziLabDevice::D7A1xDemoSendFileData => 0x00000014u32,
            WizziLabDevice::D7A1xDemoSendFileDataAndForget => 0x00000015u32,
            WizziLabDevice::D7A1xDemoReceiveFileData => 0x00000016u32,
            WizziLabDevice::D7ALoRaWAN => 0x00000017u32,
            WizziLabDevice::D7A1xDemoBigFile => 0x00000018u32,
            WizziLabDevice::D7A1xDemoCUP => 0x00000019u32,
            WizziLabDevice::D7ADemoPicture => 0x0000001Au32,
            WizziLabDevice::HelloWorld => 0x0000001Bu32,
            WizziLabDevice::ReachTechAnchor => 0x0000001Cu32,
            WizziLabDevice::RFLSimulation => 0x0000001Du32,
            WizziLabDevice::D7ALocalisation => 0x0000001Eu32,
            WizziLabDevice::PacketsStats => 0x0000001Fu32,
            WizziLabDevice::WultDemo => 0x00000020u32,
            WizziLabDevice::WgateProModem => 0x00000021u32,
            WizziLabDevice::WoltUWB => 0x00000030u32,
            WizziLabDevice::WoltD7 => 0x00000031u32,
            WizziLabDevice::Wult => 0x00000032u32,
            WizziLabDevice::USpaceDemo => 0x00000033u32,
            WizziLabDevice::USpace => 0x00000034u32,
            WizziLabDevice::USpaceCertif => 0x00000035u32,
            WizziLabDevice::CrowdScan => 0x00000036u32,
            WizziLabDevice::CertifFSK => 0x00000037u32,
            WizziLabDevice::Certif => 0x00000038u32,
            WizziLabDevice::Dash7Meter => 0x00000039u32,
            WizziLabDevice::WBeacon => 0x0000003Au32,
            WizziLabDevice::D7AFileSystem => 0x00001000u32,
            WizziLabDevice::D7AMote => 0x00001001u32,
            WizziLabDevice::RTUWBModem => 0x00001002u32,
            WizziLabDevice::WMTrack => 0x00001003u32,
            WizziLabDevice::KinderSafeDemo => 0x00005AFEu32,
            WizziLabDevice::HostVoid => 0x0000701Du32,
            WizziLabDevice::VestfoldBandDemo => 0x00700000u32,
            WizziLabDevice::GatewayHost => 0x10000000u32,
            WizziLabDevice::GatewaySecondaryModem => 0x10000001u32,
            WizziLabDevice::GatewayHostHybrid => 0x10000002u32,
            WizziLabDevice::VirtualGateway => 0x10000003u32,
            WizziLabDevice::InfrastructureMonitorer => 0x10000004u32,
            WizziLabDevice::GatewayHostVestfold => 0x11000000u32,
            WizziLabDevice::GatewaySecondaryModemVestfold => 0x11000001u32,
            WizziLabDevice::StubModem => 0xD7A02212u32,
            WizziLabDevice::D7ATestReceiver => 0xD7A17E58u32,
            WizziLabDevice::FRACTIV => 0xF4AC7170u32,
            WizziLabDevice::Wisense2 => 0xFF000000u32,
            WizziLabDevice::Wisense2Demo => 0xFF000001u32,
            WizziLabDevice::Hostref => 0xFF000002u32,
            WizziLabDevice::DisplayDemo => 0xFF000003u32,
            WizziLabDevice::LoralarmDemo => 0xFF000004u32,
            WizziLabDevice::Dash7LoRaDemo => 0xFF000006u32,
            WizziLabDevice::WisenseMW => 0xFF000007u32,
            WizziLabDevice::WisenseMDemo => 0xFF000008u32,
            WizziLabDevice::Wisp => 0xFF000009u32,
            WizziLabDevice::WispAir => 0xFF00000Au32,
            WizziLabDevice::WispLink => 0xFF00000Bu32,
            WizziLabDevice::WispGaz => 0xFF00000Cu32,
            WizziLabDevice::Vestfold => 0xFF000010u32,
            WizziLabDevice::WFITagDemo => 0xFF000011u32,
            WizziLabDevice::WFIRemote => 0xFF000012u32,
            WizziLabDevice::WISPIridium => 0xFF000013u32,
            WizziLabDevice::IridiumTracker => 0xFF000014u32,
            WizziLabDevice::Wiswitch => 0xFF000015u32,
            WizziLabDevice::Wistof => 0xFF000016u32,
            WizziLabDevice::AiforsiteAnchor => 0xFF000017u32,
            WizziLabDevice::WISPDaherSlave => 0xFF000018u32,
            WizziLabDevice::WispMate => 0xFF000019u32,
            WizziLabDevice::WispEngine => 0xFF00001Au32,
            WizziLabDevice::WispDaherMaster => 0xFF00001Bu32,
            WizziLabDevice::WoltUWBTag => 0xFF00001Cu32,
            WizziLabDevice::WoltUWBAnchor => 0xFF00001Du32,
            WizziLabDevice::WPCOM => 0xFF00001Eu32,
            WizziLabDevice::UguardController => 0xFF00001Fu32,
            WizziLabDevice::UguardPeripheral => 0xFF000020u32,
            WizziLabDevice::USpot => 0xFF000021u32,
            WizziLabDevice::WoltMeter => 0xFF000022u32,
            WizziLabDevice::WispLight => 0xFF000023u32,
            WizziLabDevice::WispSH => 0xFF000024u32,
            WizziLabDevice::UguardTag => 0xFF000026u32,
            WizziLabDevice::WP100 => 0xFF000027u32,
            WizziLabDevice::UguardSpot => 0xFF000028u32,
            WizziLabDevice::WP300 => 0xFF000029u32,
            WizziLabDevice::MotionConnect => 0xFF00002Au32,
            WizziLabDevice::AirConnect => 0xFF00002Bu32,
            WizziLabDevice::Wistofdemo => 0xFF00002Cu32,
            WizziLabDevice::BLEBeaconEddystone => 0xFF00002Du32,
            WizziLabDevice::BLEBeaconiBeacon => 0xFF00002Eu32,
            WizziLabDevice::StubCSMR => 0xFF002212u32,
            WizziLabDevice::LucyTrot => 0xFF007307u32,
            WizziLabDevice::NRF91FS => 0xFF025F91u32,
        }
    }

    /// The variant that a number stands for, if any.
    pub open spec fn spec_from_code(n: u32) -> Option<WizziLabDevice> {
        match n {
            0x00000000u32 => Some(WizziLabDevice::GatewayModem),
            0x00000001u32 => Some(WizziLabDevice::Wisense),
            0x00000002u32 => Some(WizziLabDevice::Wisense2DemoLoRa),
            0x00000003u32 => Some(WizziLabDevice::RefHost),
            0x00000004u32 => Some(WizziLabDevice::Blinker),
            0x00000005u32 => Some(WizziLabDevice::IDI005),
            0x00000006u32 => Some(WizziLabDevice::OTABootloader),
            0x00000007u32 => Some(WizziLabDevice::LoRaAlarm),
            0x00000008u32 => Some(WizziLabDevice::WMBlank),
            0x00000010u32 => Some(WizziLabDevice::D7A1xDemoSensors),
            0x00000011u32 => Some(WizziLabDevice::D7Aalarm),
            0x00000012u32 => Some(WizziLabDevice::D7Atestemitter),
            0x00000014u32 => Some(WizziLabDevice::D7A1xDemoSendFileData),
            0x00000015u32 => Some(WizziLabDevice::D7A1xDemoSendFileDataAndForget),
            0x00000016u32 => Some(WizziLabDevice::D7A1xDemoReceiveFileData),
            0x00000017u32 => Some(WizziLabDevice::D7ALoRaWAN),
            0x00000018u32 => Some(WizziLabDevice::D7A1xDemoBigFile),
            0x00000019u32 => Some(WizziLabDevice::D7A1xDemoCUP),
            0x0000001Au32 => Some(WizziLabDevice::D7ADemoPicture),
            0x0000001Bu32 => Some(WizziLabDevice::HelloWorld),
            0x0000001Cu32 => Some(WizziLabDevice::ReachTechAnchor),
            0x0000001Du32 => Some(WizziLabDevice::RFLSimulation),
            0x0000001Eu32 => Some(WizziLabDevice::D7ALocalisation),
            0x0000001Fu32 => Some(WizziLabDevice::PacketsStats),
            0x00000020u32 => Some(WizziLabDevice::WultDemo),
            0x00000021u32 => Some(WizziLabDevice::WgateProModem),
            0x00000030u32 => Some(WizziLabDevice::WoltUWB),
            0x00000031u32 => Some(WizziLabDevice::WoltD7),
            0x00000032u32 => Some(WizziLabDevice::Wult),
            0x00000033u32 => Some(WizziLabDevice::USpaceDemo),
            0x00000034u32 => Some(WizziLabDevice::USpace),
            0x00000035u32 => Some(WizziLabDevice::USpaceCertif),
            0x00000036u32 => Some(WizziLabDevice::CrowdScan),
            0x00000037u32 => Some(WizziLabDevice::CertifFSK),
            0x00000038u32 => Some(WizziLabDevice::Certif),
            0x00000039u32 => Some(WizziLabDevice::Dash7Meter),
            0x0000003Au32 => Some(WizziLabDevice::WBeacon),
            0x00001000u32 => Some(WizziLabDevice::D7AFileSystem),
            0x00001001u32 => Some(WizziLabDevice::D7AMote),
            0x00001002u32 => Some(WizziLabDevice::RTUWBModem),
            0x00001003u32 => Some(WizziLabDevice::WMTrack),
            0x00005AFEu32 => Some(WizziLabDevice::KinderSafeDemo),
            0x0000701Du32 => Some(WizziLabDevice::HostVoid),
            0x00700000u32 => Some(WizziLabDevice::VestfoldBandDemo),
            0x10000000u32 => Some(WizziLabDevice::GatewayHost),
            0x10000001u32 => Some(WizziLabDevice::GatewaySecondaryModem),
            0x10000002u32 => Some(WizziLabDevice::GatewayHostHybrid),
            0x10000003u32 => Some(WizziLabDevice::VirtualGateway),
            0x10000004u32 => Some(WizziLabDevice::InfrastructureMonitorer),
            0x11000000u32 => Some(WizziLabDevice::GatewayHostVestfold),
            0x11000001u32 => Some(WizziLabDevice::GatewaySecondaryModemVestfold),
            0xD7A02212u32 => Some(WizziLabDevice::StubModem),
            0xD7A17E58u32 => Some(WizziLabDevice::D7ATestReceiver),
            0xF4AC7170u32 => Some(WizziLabDevice::FRACTIV),
            0xFF000000u32 => Some(WizziLabDevice::Wisense2),
            0xFF000001u32 => Some(WizziLabDevice::Wisense2Demo),
            0xFF000002u32 => Some(WizziLabDevice::Hostref),
            0xFF000003u32 => Some(WizziLabDevice::DisplayDemo),
            0xFF000004u32 => Some(WizziLabDevice::LoralarmDemo),
            0xFF000006u32 => Some(WizziLabDevice::Dash7LoRaDemo),
            0xFF000007u32 => Some(WizziLabDevice::WisenseMW),
            0xFF000008u32 => Some(WizziLabDevice::WisenseMDemo),
            0xFF000009u32 => Some(WizziLabDevice::Wisp),
            0xFF00000Au32 => Some(WizziLabDevice::WispAir),
            0xFF00000Bu32 => Some(WizziLabDevice::WispLink),
            0xFF00000Cu32 => Some(WizziLabDevice::WispGaz),
            0xFF000010u32 => Some(WizziLabDevice::Vestfold),
            0xFF000011u32 => Some(WizziLabDevice::WFITagDemo),
            0xFF000012u32 => Some(WizziLabDevice::WFIRemote),
            0xFF000013u32 => Some(WizziLabDevice::WISPIridium),
            0xFF000014u32 => Some(WizziLabDevice::IridiumTracker),
            0xFF000015u32 => Some(WizziLabDevice::Wiswitch),
            0xFF000016u32 => Some(WizziLabDevice::Wistof),
            0xFF000017u32 => Some(WizziLabDevice::AiforsiteAnchor),
            0xFF000018u32 => Some(WizziLabDevice::WISPDaherSlave),
            0xFF000019u32 => Some(WizziLabDevice::WispMate),
            0xFF00001Au32 => Some(WizziLabDevice::WispEngine),
            0xFF00001Bu32 => Some(WizziLabDevice::WispDaherMaster),
            0xFF00001Cu32 => Some(WizziLabDevice::WoltUWBTag),
            0xFF00001Du32 => Some(WizziLabDevice::WoltUWBAnchor),
            0xFF00001Eu32 => Some(WizziLabDevice::WPCOM),
            0xFF00001Fu32 => Some(WizziLabDevice::UguardController),
            0xFF000020u32 => Some(WizziLabDevice::UguardPeripheral),
            0xFF000021u32 => Some(WizziLabDevice::USpot),
            0xFF000022u32 => Some(WizziLabDevice::WoltMeter),
            0xFF000023u32 => Some(WizziLabDevice::WispLight),
            0xFF000024u32 => Some(WizziLabDevice::WispSH),
            0xFF000026u32 => Some(WizziLabDevice::UguardTag),
            0xFF000027u32 => Some(WizziLabDevice::WP100),
            0xFF000028u32 => Some(WizziLabDevice::UguardSpot),
            0xFF000029u32 => Some(WizziLabDevice::WP300),
            0xFF00002Au32 => Some(WizziLabDevice::MotionConnect),
            0xFF00002Bu32 => Some(WizziLabDevice::AirConnect),
            0xFF00002Cu32 => Some(WizziLabDevice::Wistofdemo),
            0xFF00002Du32 => Some(WizziLabDevice::BLEBeaconEddystone),
            0xFF00002Eu32 => Some(WizziLabDevice::BLEBeaconiBeacon),
            0xFF002212u32 => Some(WizziLabDevice::StubCSMR),
            0xFF007307u32 => Some(WizziLabDevice::LucyTrot),
            0xFF025F91u32 => Some(WizziLabDevice::NRF91FS),
            _ => None,
        }
    }

    /// The number of the variant (`IntoPrimitive`).
    pub fn code(self) -> (r: u32)
        ensures
            r == self.spec_code(),
    {
        match self {
            WizziLabDevice::GatewayModem => 0x00000000,
            WizziLabDevice::Wisense => 0x00000001,
            WizziLabDevice::Wisense2DemoLoRa => 0x00000002,
            WizziLabDevice::RefHost => 0x00000003,
            WizziLabDevice::Blinker => 0x00000004,
            WizziLabDevice::IDI005 => 0x00000005,
            WizziLabDevice::OTABootloader => 0x00000006,
            WizziLabDevice::LoRaAlarm => 0x00000007,
            WizziLabDevice::WMBlank => 0x00000008,
            WizziLabDevice::D7A1xDemoSensors => 0x00000010,
            WizziLabDevice::D7Aalarm => 0x00000011,
            WizziLabDevice::D7Atestemitter => 0x00000012,
            WizziLabDevice::D7A1xDemoSendFileData => 0x00000014,
            WizziLabDevice::D7A1xDemoSendFileDataAndForget => 0x00000015,
            WizziLabDevice::D7A1xDemoReceiveFileData => 0x00000016,
            WizziLabDevice::D7ALoRaWAN => 0x00000017,
            WizziLabDevice::D7A1xDemoBigFile => 0x00000018,
            WizziLabDevice::D7A1xDemoCUP => 0x00000019,
            WizziLabDevice::D7ADemoPicture => 0x0000001A,
            WizziLabDevice::HelloWorld => 0x0000001B,
            WizziLabDevice::ReachTechAnchor => 0x0000001C,
            WizziLabDevice::RFLSimulation => 0x0000001D,
            WizziLabDevice::D7ALocalisation => 0x0000001E,
            WizziLabDevice::PacketsStats => 0x0000001F,
            WizziLabDevice::WultDemo => 0x00000020,
            WizziLabDevice::WgateProModem => 0x00000021,
            WizziLabDevice::WoltUWB => 0x00000030,
            WizziLabDevice::WoltD7 => 0x00000031,
            WizziLabDevice::Wult => 0x00000032,
            WizziLabDevice::USpaceDemo => 0x00000033,
            WizziLabDevice::USpace => 0x00000034,
            WizziLabDevice::USpaceCertif => 0x00000035,
            WizziLabDevice::CrowdScan => 0x00000036,
            WizziLabDevice::CertifFSK => 0x00000037,
            WizziLabDevice::Certif => 0x00000038,
            WizziLabDevice::Dash7Meter => 0x00000039,
            WizziLabDevice::WBeacon => 0x0000003A,
            WizziLabDevice::D7AFileSystem => 0x00001000,
            WizziLabDevice::D7AMote => 0x00001001,
            WizziLabDevice::RTUWBModem => 0x00001002,
            WizziLabDevice::WMTrack => 0x00001003,
            WizziLabDevice::KinderSafeDemo => 0x00005AFE,
            WizziLabDevice::HostVoid => 0x0000701D,
            WizziLabDevice::VestfoldBandDemo => 0x00700000,
            WizziLabDevice::GatewayHost => 0x10000000,
            WizziLabDevice::GatewaySecondaryModem => 0x10000001,
            WizziLabDevice::GatewayHostHybrid => 0x10000002,
            WizziLabDevice::VirtualGateway => 0x10000003,
            WizziLabDevice::InfrastructureMonitorer => 0x10000004,
            WizziLabDevice::GatewayHostVestfold => 0x11000000,
            WizziLabDevice::GatewaySecondaryModemVestfold => 0x11000001,
            WizziLabDevice::StubModem => 0xD7A02212,
            WizziLabDevice::D7ATestReceiver => 0xD7A17E58,
            WizziLabDevice::FRACTIV => 0xF4AC7170,
            WizziLabDevice::Wisense2 => 0xFF000000,
            WizziLabDevice::Wisense2Demo => 0xFF000001,
            WizziLabDevice::Hostref => 0xFF000002,
            WizziLabDevice::DisplayDemo => 0xFF000003,
            WizziLabDevice::LoralarmDemo => 0xFF000004,
            WizziLabDevice::Dash7LoRaDemo => 0xFF000006,
            WizziLabDevice::WisenseMW => 0xFF000007,
            WizziLabDevice::WisenseMDemo => 0xFF000008,
            WizziLabDevice::Wisp => 0xFF000009,
            WizziLabDevice::WispAir => 0xFF00000A,
            WizziLabDevice::WispLink => 0xFF00000B,
            WizziLabDevice::WispGaz => 0xFF00000C,
            WizziLabDevice::Vestfold => 0xFF000010,
            WizziLabDevice::WFITagDemo => 0xFF000011,
            WizziLabDevice::WFIRemote => 0xFF000012,
            WizziLabDevice::WISPIridium => 0xFF000013,
            WizziLabDevice::IridiumTracker => 0xFF000014,
            WizziLabDevice::Wiswitch => 0xFF000015,
            WizziLabDevice::Wistof => 0xFF000016,
            WizziLabDevice::AiforsiteAnchor => 0xFF000017,
            WizziLabDevice::WISPDaherSlave => 0xFF000018,
            WizziLabDevice::WispMate => 0xFF000019,
            WizziLabDevice::WispEngine => 0xFF00001A,
            WizziLabDevice::WispDaherMaster => 0xFF00001B,
            WizziLabDevice::WoltUWBTag => 0xFF00001C,
            WizziLabDevice::WoltUWBAnchor => 0xFF00001D,
            WizziLabDevice::WPCOM => 0xFF00001E,
            WizziLabDevice::UguardController => 0xFF00001F,
            WizziLabDevice::UguardPeripheral => 0xFF000020,
            WizziLabDevice::USpot => 0xFF000021,
            WizziLabDevice::WoltMeter => 0xFF000022,
            WizziLabDevice::WispLight => 0xFF000023,
            WizziLabDevice::WispSH => 0xFF000024,
            WizziLabDevice::UguardTag => 0xFF000026,
            WizziLabDevice::WP100 => 0xFF000027,
            WizziLabDevice::UguardSpot => 0xFF000028,
            WizziLabDevice::WP300 => 0xFF000029,
            WizziLabDevice::MotionConnect => 0xFF00002A,
            WizziLabDevice::AirConnect => 0xFF00002B,
            WizziLabDevice::Wistofdemo => 0xFF00002C,
            WizziLabDevice::BLEBeaconEddystone => 0xFF00002D,
            WizziLabDevice::BLEBeaconiBeacon => 0xFF00002E,
            WizziLabDevice::StubCSMR => 0xFF002212,
            WizziLabDevice::LucyTrot => 0xFF007307,
            WizziLabDevice::NRF91FS => 0xFF025F91,
        }
    }

    /// The variant of a number (`TryFromPrimitive`); `None` for a number
    /// that stands for no variant.
    pub fn from_code(n: u32) -> (r: Option<WizziLabDevice>)
        ensures
            r == Self::spec_from_code(n),
    {
        match n {
            0x00000000 => Some(WizziLabDevice::GatewayModem),
            0x00000001 => Some(WizziLabDevice::Wisense),
            0x00000002 => Some(WizziLabDevice::Wisense2DemoLoRa),
            0x00000003 => Some(WizziLabDevice::RefHost),
            0x00000004 => Some(WizziLabDevice::Blinker),
            0x00000005 => Some(WizziLabDevice::IDI005),
            0x00000006 => Some(WizziLabDevice::OTABootloader),
            0x00000007 => Some(WizziLabDevice::LoRaAlarm),
            0x00000008 => Some(WizziLabDevice::WMBlank),
            0x00000010 => Some(WizziLabDevice::D7A1xDemoSensors),
            0x00000011 => Some(WizziLabDevice::D7Aalarm),
            0x00000012 => Some(WizziLabDevice::D7Atestemitter),
            0x00000014 => Some(WizziLabDevice::D7A1xDemoSendFileData),
            0x00000015 => Some(WizziLabDevice::D7A1xDemoSendFileDataAndForget),
            0x00000016 => Some(WizziLabDevice::D7A1xDemoReceiveFileData),
            0x00000017 => Some(WizziLabDevice::D7ALoRaWAN),
            0x00000018 => Some(WizziLabDevice::D7A1xDemoBigFile),
            0x00000019 => Some(WizziLabDevice::D7A1xDemoCUP),
            0x0000001A => Some(WizziLabDevice::D7ADemoPicture),
            0x0000001B => Some(WizziLabDevice::HelloWorld),
            0x0000001C => Some(WizziLabDevice::ReachTechAnchor),
            0x0000001D => Some(WizziLabDevice::RFLSimulation),
            0x0000001E => Some(WizziLabDevice::D7ALocalisation),
            0x0000001F => Some(WizziLabDevice::PacketsStats),
            0x00000020 => Some(WizziLabDevice::WultDemo),
            0x00000021 => Some(WizziLabDevice::WgateProModem),
            0x00000030 => Some(WizziLabDevice::WoltUWB),
            0x00000031 => Some(WizziLabDevice::WoltD7),
            0x00000032 => Some(WizziLabDevice::Wult),
            0x00000033 => Some(WizziLabDevice::USpaceDemo),
            0x00000034 => Some(WizziLabDevice::USpace),
            0x00000035 => Some(WizziLabDevice::USpaceCertif),
            0x00000036 => Some(WizziLabDevice::CrowdScan),
            0x00000037 => Some(WizziLabDevice::CertifFSK),
            0x00000038 => Some(WizziLabDevice::Certif),
            0x00000039 => Some(WizziLabDevice::Dash7Meter),
            0x0000003A => Some(WizziLabDevice::WBeacon),
            0x00001000 => Some(WizziLabDevice::D7AFileSystem),
            0x00001001 => Some(WizziLabDevice::D7AMote),
            0x00001002 => Some(WizziLabDevice::RTUWBModem),
            0x00001003 => Some(WizziLabDevice::WMTrack),
            0x00005AFE => Some(WizziLabDevice::KinderSafeDemo),
            0x0000701D => Some(WizziLabDevice::HostVoid),
            0x00700000 => Some(WizziLabDevice::VestfoldBandDemo),
            0x10000000 => Some(WizziLabDevice::GatewayHost),
            0x10000001 => Some(WizziLabDevice::GatewaySecondaryModem),
            0x10000002 => Some(WizziLabDevice::GatewayHostHybrid),
            0x10000003 => Some(WizziLabDevice::VirtualGateway),
            0x10000004 => Some(WizziLabDevice::InfrastructureMonitorer),
            0x11000000 => Some(WizziLabDevice::GatewayHostVestfold),
            0x11000001 => Some(WizziLabDevice::GatewaySecondaryModemVestfold),
            0xD7A02212 => Some(WizziLabDevice::StubModem),
            0xD7A17E58 => Some(WizziLabDevice::D7ATestReceiver),
            0xF4AC7170 => Some(WizziLabDevice::FRACTIV),
            0xFF000000 => Some(WizziLabDevice::Wisense2),
            0xFF000001 => Some(WizziLabDevice::Wisense2Demo),
            0xFF000002 => Some(WizziLabDevice::Hostref),
            0xFF000003 => Some(WizziLabDevice::DisplayDemo),
            0xFF000004 => Some(WizziLabDevice::LoralarmDemo),
            0xFF000006 => Some(WizziLabDevice::Dash7LoRaDemo),
            0xFF000007 => Some(WizziLabDevice::WisenseMW),
            0xFF000008 => Some(WizziLabDevice::WisenseMDemo),
            0xFF000009 => Some(WizziLabDevice::Wisp),
            0xFF00000A => Some(WizziLabDevice::WispAir),
            0xFF00000B => Some(WizziLabDevice::WispLink),
            0xFF00000C => Some(WizziLabDevice::WispGaz),
            0xFF000010 => Some(WizziLabDevice::Vestfold),
            0xFF000011 => Some(WizziLabDevice::WFITagDemo),
            0xFF000012 => Some(WizziLabDevice::WFIRemote),
            0xFF000013 => Some(WizziLabDevice::WISPIridium),
            0xFF000014 => Some(WizziLabDevice::IridiumTracker),
            0xFF000015 => Some(WizziLabDevice::Wiswitch),
            0xFF000016 => Some(WizziLabDevice::Wistof),
            0xFF000017 => Some(WizziLabDevice::AiforsiteAnchor),
            0xFF000018 => Some(WizziLabDevice::WISPDaherSlave),
            0xFF000019 => Some(WizziLabDevice::WispMate),
            0xFF00001A => Some(WizziLabDevice::WispEngine),
            0xFF00001B => Some(WizziLabDevice::WispDaherMaster),
            0xFF00001C => Some(WizziLabDevice::WoltUWBTag),
            0xFF00001D => Some(WizziLabDevice::WoltUWBAnchor),
            0xFF00001E => Some(WizziLabDevice::WPCOM),
            0xFF00001F => Some(WizziLabDevice::UguardController),
            0xFF000020 => Some(WizziLabDevice::UguardPeripheral),
            0xFF000021 => Some(WizziLabDevice::USpot),
            0xFF000022 => Some(WizziLabDevice::WoltMeter),
            0xFF000023 => Some(WizziLabDevice::WispLight),
            0xFF000024 => Some(WizziLabDevice::WispSH),
            0xFF000026 => Some(WizziLabDevice::UguardTag),
            0xFF000027 => Some(WizziLabDevice::WP100),
            0xFF000028 => Some(WizziLabDevice::UguardSpot),
            0xFF000029 => Some(WizziLabDevice::WP300),
            0xFF00002A => Some(WizziLabDevice::MotionConnect),
            0xFF00002B => Some(WizziLabDevice::AirConnect),
            0xFF00002C => Some(WizziLabDevice::Wistofdemo),
            0xFF00002D => Some(WizziLabDevice::BLEBeaconEddystone),
            0xFF00002E => Some(WizziLabDevice::BLEBeaconiBeacon),
            0xFF002212 => Some(WizziLabDevice::StubCSMR),
            0xFF007307 => Some(WizziLabDevice::LucyTrot),
            0xFF025F91 => Some(WizziLabDevice::NRF91FS),
            _ => None,
        }
    }

    /// Every variant is read back from its own number, and a number that
    /// reads as a variant is that variant's number.
    pub proof fn lemma_code_roundtrip(self, n: u32)
        ensures
            Self::spec_from_code(self.spec_code()) == Some(self),
            Self::spec_from_code(n) matches Some(e) ==> e.spec_code() == n,
    {
    }

    /// Each variant is read from the number registered for it and from no
    /// other: a number that reads as `e` is `e`'s registered number.
    pub proof fn lemma_registered_codes(n: u32, e: WizziLabDevice)
        requires
            WizziLabDevice::spec_from_code(n) == Some(e),
        ensures
            e is GatewayModem <==> n == 0x00000000u32,
            e is Wisense <==> n == 0x00000001u32,
            e is Wisense2DemoLoRa <==> n == 0x00000002u32,
            e is RefHost <==> n == 0x00000003u32,
            e is Blinker <==> n == 0x00000004u32,
            e is IDI005 <==> n == 0x00000005u32,
            e is OTABootloader <==> n == 0x00000006u32,
            e is LoRaAlarm <==> n == 0x00000007u32,
            e is WMBlank <==> n == 0x00000008u32,
            e is D7A1xDemoSensors <==> n == 0x00000010u32,
            e is D7Aalarm <==> n == 0x00000011u32,
            e is D7Atestemitter <==> n == 0x00000012u32,
            e is D7A1xDemoSendFileData <==> n == 0x00000014u32,
            e is D7A1xDemoSendFileDataAndForget <==> n == 0x00000015u32,
            e is D7A1xDemoReceiveFileData <==> n == 0x00000016u32,
            e is D7ALoRaWAN <==> n == 0x00000017u32,
            e is D7A1xDemoBigFile <==> n == 0x00000018u32,
            e is D7A1xDemoCUP <==> n == 0x00000019u32,
            e is D7ADemoPicture <==> n == 0x0000001Au32,
            e is HelloWorld <==> n == 0x0000001Bu32,
            e is ReachTechAnchor <==> n == 0x0000001Cu32,
            e is RFLSimulation <==> n == 0x0000001Du32,
            e is D7ALocalisation <==> n == 0x0000001Eu32,
            e is PacketsStats <==> n == 0x0000001Fu32,
            e is WultDemo <==> n == 0x00000020u32,
            e is WgateProModem <==> n == 0x00000021u32,
            e is WoltUWB <==> n == 0x00000030u32,
            e is WoltD7 <==> n == 0x00000031u32,
            e is Wult <==> n == 0x00000032u32,
            e is USpaceDemo <==> n == 0x00000033u32,
            e is USpace <==> n == 0x00000034u32,
            e is USpaceCertif <==> n == 0x00000035u32,
            e is CrowdScan <==> n == 0x00000036u32,
            e is CertifFSK <==> n == 0x00000037u32,
            e is Certif <==> n == 0x00000038u32,
            e is Dash7Meter <==> n == 0x00000039u32,
            e is WBeacon <==> n == 0x0000003Au32,
            e is D7AFileSystem <==> n == 0x00001000u32,
            e is D7AMote <==> n == 0x00001001u32,
            e is RTUWBModem <==> n == 0x00001002u32,
            e is WMTrack <==> n == 0x00001003u32,
            e is KinderSafeDemo <==> n == 0x00005AFEu32,
            e is HostVoid <==> n == 0x0000701Du32,
            e is VestfoldBandDemo <==> n == 0x00700000u32,
            e is GatewayHost <==> n == 0x10000000u32,
            e is GatewaySecondaryModem <==> n == 0x10000001u32,
            e is GatewayHostHybrid <==> n == 0x10000002u32,
            e is VirtualGateway <==> n == 0x10000003u32,
            e is InfrastructureMonitorer <==> n == 0x10000004u32,
            e is GatewayHostVestfold <==> n == 0x11000000u32,
            e is GatewaySecondaryModemVestfold <==> n == 0x11000001u32,
            e is StubModem <==> n == 0xD7A02212u32,
            e is D7ATestReceiver <==> n == 0xD7A17E58u32,
            e is FRACTIV <==> n == 0xF4AC7170u32,
            e is Wisense2 <==> n == 0xFF000000u32,
            e is Wisense2Demo <==> n == 0xFF000001u32,
            e is Hostref <==> n == 0xFF000002u32,
            e is DisplayDemo <==> n == 0xFF000003u32,
            e is LoralarmDemo <==> n == 0xFF000004u32,
            e is Dash7LoRaDemo <==> n == 0xFF000006u32,
            e is WisenseMW <==> n == 0xFF000007u32,
            e is WisenseMDemo <==> n == 0xFF000008u32,
            e is Wisp <==> n == 0xFF000009u32,
            e is WispAir <==> n == 0xFF00000Au32,
            e is WispLink <==> n == 0xFF00000Bu32,
            e is WispGaz <==> n == 0xFF00000Cu32,
            e is Vestfold <==> n == 0xFF000010u32,
            e is WFITagDemo <==> n == 0xFF000011u32,
            e is WFIRemote <==> n == 0xFF000012u32,
            e is WISPIridium <==> n == 0xFF000013u32,
            e is IridiumTracker <==> n == 0xFF000014u32,
            e is Wiswitch <==> n == 0xFF000015u32,
            e is Wistof <==> n == 0xFF000016u32,
            e is AiforsiteAnchor <==> n == 0xFF000017u32,
            e is WISPDaherSlave <==> n == 0xFF000018u32,
            e is WispMate <==> n == 0xFF000019u32,
            e is WispEngine <==> n == 0xFF00001Au32,
            e is WispDaherMaster <==> n == 0xFF00001Bu32,
            e is WoltUWBTag <==> n == 0xFF00001Cu32,
            e is WoltUWBAnchor <==> n == 0xFF00001Du32,
            e is WPCOM <==> n == 0xFF00001Eu32,
            e is UguardController <==> n == 0xFF00001Fu32,
            e is UguardPeripheral <==> n == 0xFF000020u32,
            e is USpot <==> n == 0xFF000021u32,
            e is WoltMeter <==> n == 0xFF000022u32,
            e is WispLight <==> n == 0xFF000023u32,
            e is WispSH <==> n == 0xFF000024u32,
            e is UguardTag <==> n == 0xFF000026u32,
            e is WP100 <==> n == 0xFF000027u32,
            e is UguardSpot <==> n == 0xFF000028u32,
            e is WP300 <==> n == 0xFF000029u32,
            e is MotionConnect <==> n == 0xFF00002Au32,
            e is AirConnect <==> n == 0xFF00002Bu32,
            e is Wistofdemo <==> n == 0xFF00002Cu32,
            e is BLEBeaconEddystone <==> n == 0xFF00002Du32,
            e is BLEBeaconiBeacon <==> n == 0xFF00002Eu32,
            e is StubCSMR <==> n == 0xFF002212u32,
            e is LucyTrot <==> n == 0xFF007307u32,
            e is NRF91FS <==> n == 0xFF025F91u32,
    {
    }
}

/// The devices of OneSitu, by number.
#[derive(Debug, Clone, Copy, PartialEq, Eq, Structural)]
pub enum OneSituDevice {
    OS200,
    OS300,
    OS110,
}

impl OneSituDevice {
    /// The number that stands for each variant.
    pub open spec fn spec_code(self) -> u32 {
        match self {
            OneSituDevice::OS200 => 0x00000200u32,
            OneSituDevice::OS300 => 0x00000300u32,
            OneSituDevice::OS110 => 0x00000400u32,
        }
    }

    /// The variant that a number stands for, if any.
    pub open spec fn spec_from_code(n: u32) -> Option<OneSituDevice> {
        match n {
            0x00000200u32 => Some(OneSituDevice::OS200),
            0x00000300u32 => Some(OneSituDevice::OS300),
            0x00000400u32 => Some(OneSituDevice::OS110),
            _ => None,
        }
    }

    /// The number of the variant (`IntoPrimitive`).
    pub fn code(self) -> (r: u32)
        ensures
            r == self.spec_code(),
    {
        match self {
            OneSituDevice::OS200 => 0x00000200,
            OneSituDevice::OS300 => 0x00000300,
            OneSituDevice::OS110 => 0x00000400,
        }
    }

    /// The variant of a number (`TryFromPrimitive`); `None` for a number
    /// that stands for no variant.
    pub fn from_code(n: u32) -> (r: Option<OneSituDevice>)
        ensures
            r == Self::spec_from_code(n),
    {
        match n {
            0x00000200 => Some(OneSituDevice::OS200),
            0x00000300 => Some(OneSituDevice::OS300),
            0x00000400 => Some(OneSituDevice::OS110),
            _ => None,
        }
    }

    /// Every variant is read back from its own number, and a number that
    /// reads as a variant is that variant's number.
    pub proof fn lemma_code_roundtrip(self, n: u32)
        ensures
            Self::spec_from_code(self.spec_code()) == Some(self),
            Self::spec_from_code(n) matches Some(e) ==> e.spec_code() == n,
    {
    }

    /// Each variant is read from the number registered for it and from no
    /// other: a number that reads as `e` is `e`'s registered number.
    pub proof fn lemma_registered_codes(n: u32, e: OneSituDevice)
        requires
            OneSituDevice::spec_from_code(n) == Some(e),
        ensures
            e is OS200 <==> n == 0x00000200u32,
            e is OS300 <==> n == 0x00000300u32,
            e is OS110 <==> n == 0x00000400u32,
    {
    }
}

/// The devices of Kawantech, by number.
#[derive(Debug, Clone, Copy, PartialEq, Eq, Structural)]
pub enum KawantechDevice {
    Device,
    Kara,
    DeviceK2,
    DeviceK,
}

impl KawantechDevice {
    /// The number that stands for each variant.
    pub open spec fn spec_code(self) -> u32 {
        match self {
            KawantechDevice::Device => 0x00000000u32,
            KawantechDevice::Kara => 0x00000014u32,
            KawantechDevice::DeviceK2 => 0x00000017u32,
            KawantechDevice::DeviceK => 0x0000701Du32,
        }
    }

    /// The variant that a number stands for, if any.
    pub open spec fn spec_from_code(n: u32) -> Option<KawantechDevice> {
        match n {
            0x00000000u32 => Some(KawantechDevice::Device),
            0x00000014u32 => Some(KawantechDevice::Kara),
            0x00000017u32 => Some(KawantechDevice::DeviceK2),
            0x0000701Du32 => Some(KawantechDevice::DeviceK),
            _ => None,
        }
    }

    /// The number of the variant (`IntoPrimitive`).
    pub fn code(self) -> (r: u32)
        ensures
            r == self.spec_code(),
    {
        match self {
            KawantechDevice::Device => 0x00000000,
            KawantechDevice::Kara => 0x00000014,
            KawantechDevice::DeviceK2 => 0x00000017,
            KawantechDevice::DeviceK => 0x0000701D,
        }
    }

    /// The variant of a number (`TryFromPrimitive`); `None` for a number
    /// that stands for no variant.
    pub fn from_code(n: u32) -> (r: Option<KawantechDevice>)
        ensures
            r == Self::spec_from_code(n),
    {
        match n {
            0x00000000 => Some(KawantechDevice::Device),
            0x00000014 => Some(KawantechDevice::Kara),
            0x00000017 => Some(KawantechDevice::DeviceK2),
            0x0000701D => Some(KawantechDevice::DeviceK),
            _ => None,
        }
    }

    /// Every variant is read back from its own number, and a number that
    /// reads as a variant is that variant's number.
    pub proof fn lemma_code_roundtrip(self, n: u32)
        ensures
            Self::spec_from_code(self.spec_code()) == Some(self),
            Self::spec_from_code(n) matches Some(e) ==> e.spec_code() == n,
    {
    }

    /// Each variant is read from the number registered for it and from no
    /// other: a number that reads as `e` is `e`'s registered number.
    pub proof fn lemma_registered_codes(n: u32, e: KawantechDevice)
        requires
            KawantechDevice::spec_from_code(n) == Some(e),
        ensures
            e is Device <==> n == 0x00000000u32,
            e is Kara <==> n == 0x00000014u32,
            e is DeviceK2 <==> n == 0x00000017u32,
            e is DeviceK <==> n == 0x0000701Du32,
    {
    }
}

/// The devices of WiFindIt, by number.
#[derive(Debug, Clone, Copy, PartialEq, Eq, Structural)]
pub enum WiFindItDevice {
    WFITag,
}

impl WiFindItDevice {
    /// The number that stands for each variant.
    pub open spec fn spec_code(self) -> u32 {
        match self {
            WiFindItDevice::WFITag => 0x77F10000u32,
        }
    }

    /// The variant that a number stands for, if any.
    pub open spec fn spec_from_code(n: u32) -> Option<WiFindItDevice> {
        match n {
            0x77F10000u32 => Some(WiFindItDevice::WFITag),
            _ => None,
        }
    }

    /// The number of the variant (`IntoPrimitive`).
    pub fn code(self) -> (r: u32)
        ensures
            r == self.spec_code(),
    {
        match self {
            WiFindItDevice::WFITag => 0x77F10000,
        }
    }

    /// The variant of a number (`TryFromPrimitive`); `None` for a number
    /// that stands for no variant.
    pub fn from_code(n: u32) -> (r: Option<WiFindItDevice>)
        ensures
            r == Self::spec_from_code(n),
    {
        match n {
            0x77F10000 => Some(WiFindItDevice::WFITag),
            _ => None,
        }
    }

    /// Every variant is read back from its own number, and a number that
    /// reads as a variant is that variant's number.
    pub proof fn lemma_code_roundtrip(self, n: u32)
        ensures
            Self::spec_from_code(self.spec_code()) == Some(self),
            Self::spec_from_code(n) matches Some(e) ==> e.spec_code() == n,
    {
    }

    /// Each variant is read from the number registered for it and from no
    /// other: a number that reads as `e` is `e`'s registered number.
    pub proof fn lemma_registered_codes(n: u32, e: WiFindItDevice)
        requires
            WiFindItDevice::spec_from_code(n) == Some(e),
        ensures
            e is WFITag <==> n == 0x77F10000u32,
    {
    }
}

/// The devices of Reach Technology, by number.
#[derive(Debug, Clone, Copy, PartialEq, Eq, Structural)]
pub enum ReachTechnologyDevice {
    WizziGatePyHost,
    UWBAnchor,
}

impl ReachTechnologyDevice {
    /// The number that stands for each variant.
    pub open spec fn spec_code(self) -> u32 {
        match self {
            ReachTechnologyDevice::WizziGatePyHost => 0x00000000u32,
            ReachTechnologyDevice::UWBAnchor => 0x0000001Cu32,
        }
    }

    /// The variant that a number stands for, if any.
    pub open spec fn spec_from_code(n: u32) -> Option<ReachTechnologyDevice> {
        match n {
            0x00000000u32 => Some(ReachTechnologyDevice::WizziGatePyHost),
            0x0000001Cu32 => Some(ReachTechnologyDevice::UWBAnchor),
            _ => None,
        }
    }

    /// The number of the variant (`IntoPrimitive`).
    pub fn code(self) -> (r: u32)
        ensures
            r == self.spec_code(),
    {
        match self {
            ReachTechnologyDevice::WizziGatePyHost => 0x00000000,
            ReachTechnologyDevice::UWBAnchor => 0x0000001C,
        }
    }

    /// The variant of a number (`TryFromPrimitive`); `None` for a number
    /// that stands for no variant.
    pub fn from_code(n: u32) -> (r: Option<ReachTechnologyDevice>)
        ensures
            r == Self::spec_from_code(n),
    {
        match n {
            0x00000000 => Some(ReachTechnologyDevice::WizziGatePyHost),
            0x0000001C => Some(ReachTechnologyDevice::UWBAnchor),
            _ => None,
        }
    }

    /// Every variant is read back from its own number, and a number that
    /// reads as a variant is that variant's number.
    pub proof fn lemma_code_roundtrip(self, n: u32)
        ensures
            Self::spec_from_code(self.spec_code()) == Some(self),
            Self::spec_from_code(n) matches Some(e) ==> e.spec_code() == n,
    {
    }

    /// Each variant is read from the number registered for it and from no
    /// other: a number that reads as `e` is `e`'s registered number.
    pub proof fn lemma_registered_codes(n: u32, e: ReachTechnologyDevice)
        requires
            ReachTechnologyDevice::spec_from_code(n) == Some(e),
        ensures
            e is WizziGatePyHost <==> n == 0x00000000u32,
            e is UWBAnchor <==> n == 0x0000001Cu32,
    {
    }
}

/// A device type: the company, and the device among that company's.
#[derive(Debug, Clone, Copy, PartialEq, Eq, Structural)]
pub enum DeviceType {
    Void,
    WizziLab(WizziLabDevice),
    OneSitu(OneSituDevice),
    Kawantech(KawantechDevice),
    WiFindIt(WiFindItDevice),
    ReachTechnology(ReachTechnologyDevice),
}

/// Why a 64-bit number is no known device type.
#[derive(Debug, Clone, Copy, PartialEq, Eq, Structural)]
pub enum DeviceTypeError {
    /// The high 32 bits are no registered company.
    UnknownCompany(u32),
    /// The low 32 bits are no device of the company.
    UnknownDevice(u32),
    /// The company is registered but its devices are not known here.
    NotImplemented,
}

/// The text of why a number is no device type: the `Debug` form of the
/// lookup error (`TryFromPrimitiveError { number: N }`) for an unknown
/// company or device, and `Not implemented yet.` for a company whose devices
/// are not known here.
pub open spec fn device_type_error_text(e: DeviceTypeError) -> Seq<char> {
    match e {
        DeviceTypeError::UnknownCompany(n) => "TryFromPrimitiveError { number: "@ + decimal(
            n as nat,
        ) + " }"@,
        DeviceTypeError::UnknownDevice(n) => "TryFromPrimitiveError { number: "@ + decimal(
            n as nat,
        ) + " }"@,
        DeviceTypeError::NotImplemented => "Not implemented yet."@,
    }
}

impl DeviceTypeError {
    /// The text of the error.
    pub fn to_string(&self) -> (r: String)
        ensures
            r@ == device_type_error_text(*self),
    {
        match self {
            DeviceTypeError::UnknownCompany(n) | DeviceTypeError::UnknownDevice(n) => {
                let mut s = String::new();
                push_str(&mut s, "TryFromPrimitiveError { number: ");
                push_decimal(&mut s, *n as u64);
                push_str(&mut s, " }");
                s
            },
            DeviceTypeError::NotImplemented => "Not implemented yet.".to_owned(),
        }
    }
}

/// The company number of a 64-bit device type: its high 32 bits.
pub open spec fn company_part(from: u64) -> u32 {
    (from / 0x1_0000_0000) as u32
}

/// The device number of a 64-bit device type: its low 32 bits.
pub open spec fn device_part(from: u64) -> u32 {
    (from % 0x1_0000_0000) as u32
}

/// Wraps a device of the given company, or names the unknown device number.
pub open spec fn known_device<D>(d: Option<D>, n: u32, f: spec_fn(D) -> DeviceType) -> Result<
    DeviceType,
    DeviceTypeError,
> {
    match d {
        Some(d) => Ok(f(d)),
        None => Err(DeviceTypeError::UnknownDevice(n)),
    }
}

/// The device type that a 64-bit number stands for.
pub open spec fn device_type_spec(from: u64) -> Result<DeviceType, DeviceTypeError> {
    let company = company_part(from);
    let device = device_part(from);
    match CompanyID::spec_from_code(company) {
        None => Err(DeviceTypeError::UnknownCompany(company)),
        Some(CompanyID::Void) => Ok(DeviceType::Void),
        Some(CompanyID::WizziLab) => known_device(
            WizziLabDevice::spec_from_code(device),
            device,
            |d| DeviceType::WizziLab(d),
        ),
        Some(CompanyID::OneSitu) => known_device(
            OneSituDevice::spec_from_code(device),
            device,
            |d| DeviceType::OneSitu(d),
        ),
        Some(CompanyID::Kawantech) => known_device(
            KawantechDevice::spec_from_code(device),
            device,
            |d| DeviceType::Kawantech(d),
        ),
        Some(CompanyID::WiFindIt) => known_device(
            WiFindItDevice::spec_from_code(device),
            device,
            |d| DeviceType::WiFindIt(d),
        ),
        Some(CompanyID::ReachTechnology) => known_device(
            ReachTechnologyDevice::spec_from_code(device),
            device,
            |d| DeviceType::ReachTechnology(d),
        ),
        Some(_) => Err(DeviceTypeError::NotImplemented),
    }
}

/// A device type is read from its company's registered number in the high
/// half, and from the device's registered number in the low half.
pub proof fn lemma_device_type_numbers(from: u64, dt: DeviceType)
    requires
        device_type_spec(from) == Ok::<DeviceType, DeviceTypeError>(dt),
    ensures
        dt is Void <==> company_part(from) == 0x00000000u32,
        dt is WizziLab <==> company_part(from) == 0x01BC50C7u32,
        dt is OneSitu <==> company_part(from) == 0x0A3EF31Fu32,
        dt is Kawantech <==> company_part(from) == 0x13ED6E5Fu32,
        dt is WiFindIt <==> company_part(from) == 0x5A751604u32,
        dt is ReachTechnology <==> company_part(from) == 0x5F47ED8Au32,
        dt matches DeviceType::OneSitu(d) ==> OneSituDevice::spec_from_code(device_part(from))
            == Some(d),
        dt matches DeviceType::Kawantech(d) ==> KawantechDevice::spec_from_code(device_part(from))
            == Some(d),
        dt matches DeviceType::WiFindIt(d) ==> WiFindItDevice::spec_from_code(device_part(from))
            == Some(d),
        dt matches DeviceType::ReachTechnology(d) ==> ReachTechnologyDevice::spec_from_code(
            device_part(from),
        ) == Some(d),
{
    let c = CompanyID::spec_from_code(company_part(from));
    assert(c is Some);
    CompanyID::lemma_registered_codes(company_part(from), c.unwrap());
}

/// A WizziLab device type is read from its registered device number: for
/// every number `from` that reads as a WizziLab device `d`, the high half is
/// the WizziLab company number and the low half is the number registered for
/// `d` (a different device number gives a different device).
pub proof fn lemma_wizzilab_device_numbers(from: u64, d: WizziLabDevice)
    requires
        device_type_spec(from) == Ok::<DeviceType, DeviceTypeError>(DeviceType::WizziLab(d)),
    ensures
        company_part(from) == 0x01BC50C7u32,
        d is GatewayModem <==> device_part(from) == 0x00000000u32,
        d is Wisense <==> device_part(from) == 0x00000001u32,
        d is Wisense2DemoLoRa <==> device_part(from) == 0x00000002u32,
        d is RefHost <==> device_part(from) == 0x00000003u32,
        d is Blinker <==> device_part(from) == 0x00000004u32,
        d is IDI005 <==> device_part(from) == 0x00000005u32,
        d is OTABootloader <==> device_part(from) == 0x00000006u32,
        d is LoRaAlarm <==> device_part(from) == 0x00000007u32,
        d is WMBlank <==> device_part(from) == 0x00000008u32,
        d is D7A1xDemoSensors <==> device_part(from) == 0x00000010u32,
        d is D7Aalarm <==> device_part(from) == 0x00000011u32,
        d is D7Atestemitter <==> device_part(from) == 0x00000012u32,
        d is D7A1xDemoSendFileData <==> device_part(from) == 0x00000014u32,
        d is D7A1xDemoSendFileDataAndForget <==> device_part(from) == 0x00000015u32,
        d is D7A1xDemoReceiveFileData <==> device_part(from) == 0x00000016u32,
        d is D7ALoRaWAN <==> device_part(from) == 0x00000017u32,
        d is D7A1xDemoBigFile <==> device_part(from) == 0x00000018u32,
        d is D7A1xDemoCUP <==> device_part(from) == 0x00000019u32,
        d is D7ADemoPicture <==> device_part(from) == 0x0000001Au32,
        d is HelloWorld <==> device_part(from) == 0x0000001Bu32,
        d is ReachTechAnchor <==> device_part(from) == 0x0000001Cu32,
        d is RFLSimulation <==> device_part(from) == 0x0000001Du32,
        d is D7ALocalisation <==> device_part(from) == 0x0000001Eu32,
        d is PacketsStats <==> device_part(from) == 0x0000001Fu32,
        d is WultDemo <==> device_part(from) == 0x00000020u32,
        d is WgateProModem <==> device_part(from) == 0x00000021u32,
        d is WoltUWB <==> device_part(from) == 0x00000030u32,
        d is WoltD7 <==> device_part(from) == 0x00000031u32,
        d is Wult <==> device_part(from) == 0x00000032u32,
        d is USpaceDemo <==> device_part(from) == 0x00000033u32,
        d is USpace <==> device_part(from) == 0x00000034u32,
        d is USpaceCertif <==> device_part(from) == 0x00000035u32,
        d is CrowdScan <==> device_part(from) == 0x00000036u32,
        d is CertifFSK <==> device_part(from) == 0x00000037u32,
        d is Certif <==> device_part(from) == 0x00000038u32,
        d is Dash7Meter <==> device_part(from) == 0x00000039u32,
        d is WBeacon <==> device_part(from) == 0x0000003Au32,
        d is D7AFileSystem <==> device_part(from) == 0x00001000u32,
        d is D7AMote <==> device_part(from) == 0x00001001u32,
        d is RTUWBModem <==> device_part(from) == 0x00001002u32,
        d is WMTrack <==> device_part(from) == 0x00001003u32,
        d is KinderSafeDemo <==> device_part(from) == 0x00005AFEu32,
        d is HostVoid <==> device_part(from) == 0x0000701Du32,
        d is VestfoldBandDemo <==> device_part(from) == 0x00700000u32,
        d is GatewayHost <==> device_part(from) == 0x10000000u32,
        d is GatewaySecondaryModem <==> device_part(from) == 0x10000001u32,
        d is GatewayHostHybrid <==> device_part(from) == 0x10000002u32,
        d is VirtualGateway <==> device_part(from) == 0x10000003u32,
        d is InfrastructureMonitorer <==> device_part(from) == 0x10000004u32,
        d is GatewayHostVestfold <==> device_part(from) == 0x11000000u32,
        d is GatewaySecondaryModemVestfold <==> device_part(from) == 0x11000001u32,
        d is StubModem <==> device_part(from) == 0xD7A02212u32,
        d is D7ATestReceiver <==> device_part(from) == 0xD7A17E58u32,
        d is FRACTIV <==> device_part(from) == 0xF4AC7170u32,
        d is Wisense2 <==> device_part(from) == 0xFF000000u32,
        d is Wisense2Demo <==> device_part(from) == 0xFF000001u32,
        d is Hostref <==> device_part(from) == 0xFF000002u32,
        d is DisplayDemo <==> device_part(from) == 0xFF000003u32,
        d is LoralarmDemo <==> device_part(from) == 0xFF000004u32,
        d is Dash7LoRaDemo <==> device_part(from) == 0xFF000006u32,
        d is WisenseMW <==> device_part(from) == 0xFF000007u32,
        d is WisenseMDemo <==> device_part(from) == 0xFF000008u32,
        d is Wisp <==> device_part(from) == 0xFF000009u32,
        d is WispAir <==> device_part(from) == 0xFF00000Au32,
        d is WispLink <==> device_part(from) == 0xFF00000Bu32,
        d is WispGaz <==> device_part(from) == 0xFF00000Cu32,
        d is Vestfold <==> device_part(from) == 0xFF000010u32,
        d is WFITagDemo <==> device_part(from) == 0xFF000011u32,
        d is WFIRemote <==> device_part(from) == 0xFF000012u32,
        d is WISPIridium <==> device_part(from) == 0xFF000013u32,
        d is IridiumTracker <==> device_part(from) == 0xFF000014u32,
        d is Wiswitch <==> device_part(from) == 0xFF000015u32,
        d is Wistof <==> device_part(from) == 0xFF000016u32,
        d is AiforsiteAnchor <==> device_part(from) == 0xFF000017u32,
        d is WISPDaherSlave <==> device_part(from) == 0xFF000018u32,
        d is WispMate <==> device_part(from) == 0xFF000019u32,
        d is WispEngine <==> device_part(from) == 0xFF00001Au32,
        d is WispDaherMaster <==> device_part(from) == 0xFF00001Bu32,
        d is WoltUWBTag <==> device_part(from) == 0xFF00001Cu32,
        d is WoltUWBAnchor <==> device_part(from) == 0xFF00001Du32,
        d is WPCOM <==> device_part(from) == 0xFF00001Eu32,
        d is UguardController <==> device_part(from) == 0xFF00001Fu32,
        d is UguardPeripheral <==> device_part(from) == 0xFF000020u32,
        d is USpot <==> device_part(from) == 0xFF000021u32,
        d is WoltMeter <==> device_part(from) == 0xFF000022u32,
        d is WispLight <==> device_part(from) == 0xFF000023u32,
        d is WispSH <==> device_part(from) == 0xFF000024u32,
        d is UguardTag <==> device_part(from) == 0xFF000026u32,
        d is WP100 <==> device_part(from) == 0xFF000027u32,
        d is UguardSpot <==> device_part(from) == 0xFF000028u32,
        d is WP300 <==> device_part(from) == 0xFF000029u32,
        d is MotionConnect <==> device_part(from) == 0xFF00002Au32,
        d is AirConnect <==> device_part(from) == 0xFF00002Bu32,
        d is Wistofdemo <==> device_part(from) == 0xFF00002Cu32,
        d is BLEBeaconEddystone <==> device_part(from) == 0xFF00002Du32,
        d is BLEBeaconiBeacon <==> device_part(from) == 0xFF00002Eu32,
        d is StubCSMR <==> device_part(from) == 0xFF002212u32,
        d is LucyTrot <==> device_part(from) == 0xFF007307u32,
        d is NRF91FS <==> device_part(from) == 0xFF025F91u32,
{
}

/// The application (as named in firmware file names) that a device type runs.
pub open spec fn app_name(d: DeviceType) -> Option<Seq<char>> {
    match d {
        DeviceType::WizziLab(w) => match w {
                WizziLabDevice::D7AMote => Some("wm"@),
                WizziLabDevice::D7AFileSystem => Some("wm"@),
                WizziLabDevice::GatewaySecondaryModem => Some("gw"@),
                WizziLabDevice::Wult => Some("wult"@),
                WizziLabDevice::WoltUWBTag => Some("wolt_uwb_tag"@),
                WizziLabDevice::WoltUWBAnchor => Some("wolt_uwb_anchor"@),
                WizziLabDevice::WoltMeter => Some("wolt_uwb_tag"@),
                WizziLabDevice::UguardController => Some("uguard_controller"@),
                WizziLabDevice::UguardPeripheral => Some("uguard_peripheral"@),
                WizziLabDevice::UguardTag => Some("uguard_tag"@),
                WizziLabDevice::UguardSpot => Some("uguard_spot"@),
                WizziLabDevice::AirConnect => Some("air_connect"@),
                WizziLabDevice::MotionConnect => Some("motion_connect"@),
                WizziLabDevice::WBeacon => Some("wbeacon"@),
                WizziLabDevice::Wisense2 => Some("ws"@),
                WizziLabDevice::Wisp => Some("wisp"@),
                WizziLabDevice::WispAir => Some("wispair"@),
                WizziLabDevice::Wiswitch => Some("wiswitch"@),
                WizziLabDevice::WispLight => Some("wisp_light"@),
                WizziLabDevice::AiforsiteAnchor => Some("aiforsite_anchor"@),
                WizziLabDevice::WP100 => Some("wp100"@),
                WizziLabDevice::LucyTrot => Some("lucy_trot"@),
            _ => None,
        },
        DeviceType::WiFindIt(w) => match w {
            WiFindItDevice::WFITag => Some("wfi_tag"@),
        },
        DeviceType::OneSitu(o) => match o {
                OneSituDevice::OS200 => Some("os200"@),
                OneSituDevice::OS300 => Some("os300"@),
                OneSituDevice::OS110 => Some("os110"@),
        },
        _ => None,
    }
}

/// The application each device type runs, as firmware file names name it;
/// WizziLab devices other than these run none that has a name, and
/// neither do the devices of other companies than OneSitu and WiFindIt.
pub proof fn lemma_app_names(d: WizziLabDevice, dt: DeviceType)
    ensures
        app_name(DeviceType::WizziLab(WizziLabDevice::D7AMote)) == Some("wm"@),
        app_name(DeviceType::WizziLab(WizziLabDevice::D7AFileSystem)) == Some("wm"@),
        app_name(DeviceType::WizziLab(WizziLabDevice::GatewaySecondaryModem)) == Some("gw"@),
        app_name(DeviceType::WizziLab(WizziLabDevice::Wult)) == Some("wult"@),
        app_name(DeviceType::WizziLab(WizziLabDevice::WoltUWBTag)) == Some("wolt_uwb_tag"@),
        app_name(DeviceType::WizziLab(WizziLabDevice::WoltUWBAnchor)) == Some("wolt_uwb_anchor"@),
        app_name(DeviceType::WizziLab(WizziLabDevice::WoltMeter)) == Some("wolt_uwb_tag"@),
        app_name(DeviceType::WizziLab(WizziLabDevice::UguardController)) == Some("uguard_controller"@),
        app_name(DeviceType::WizziLab(WizziLabDevice::UguardPeripheral)) == Some("uguard_peripheral"@),
        app_name(DeviceType::WizziLab(WizziLabDevice::UguardTag)) == Some("uguard_tag"@),
        app_name(DeviceType::WizziLab(WizziLabDevice::UguardSpot)) == Some("uguard_spot"@),
        app_name(DeviceType::WizziLab(WizziLabDevice::AirConnect)) == Some("air_connect"@),
        app_name(DeviceType::WizziLab(WizziLabDevice::MotionConnect)) == Some("motion_connect"@),
        app_name(DeviceType::WizziLab(WizziLabDevice::WBeacon)) == Some("wbeacon"@),
        app_name(DeviceType::WizziLab(WizziLabDevice::Wisense2)) == Some("ws"@),
        app_name(DeviceType::WizziLab(WizziLabDevice::Wisp)) == Some("wisp"@),
        app_name(DeviceType::WizziLab(WizziLabDevice::WispAir)) == Some("wispair"@),
        app_name(DeviceType::WizziLab(WizziLabDevice::Wiswitch)) == Some("wiswitch"@),
        app_name(DeviceType::WizziLab(WizziLabDevice::WispLight)) == Some("wisp_light"@),
        app_name(DeviceType::WizziLab(WizziLabDevice::AiforsiteAnchor)) == Some("aiforsite_anchor"@),
        app_name(DeviceType::WizziLab(WizziLabDevice::WP100)) == Some("wp100"@),
        app_name(DeviceType::WizziLab(WizziLabDevice::LucyTrot)) == Some("lucy_trot"@),
        app_name(DeviceType::WiFindIt(WiFindItDevice::WFITag)) == Some("wfi_tag"@),
        app_name(DeviceType::OneSitu(OneSituDevice::OS200)) == Some("os200"@),
        app_name(DeviceType::OneSitu(OneSituDevice::OS300)) == Some("os300"@),
        app_name(DeviceType::OneSitu(OneSituDevice::OS110)) == Some("os110"@),
        app_name(DeviceType::WizziLab(d)) is Some <==> (d is D7AMote || d is D7AFileSystem || d is GatewaySecondaryModem || d is Wult || d is WoltUWBTag || d is WoltUWBAnchor || d is WoltMeter || d is UguardController || d is UguardPeripheral || d is UguardTag || d is UguardSpot || d is AirConnect || d is MotionConnect || d is WBeacon || d is Wisense2 || d is Wisp || d is WispAir || d is Wiswitch || d is WispLight || d is AiforsiteAnchor || d is WP100 || d is LucyTrot),
        dt is Void || dt is Kawantech || dt is ReachTechnology ==> app_name(dt) is None,
{
}

impl DeviceType {
    /// A device type from its 64-bit number (`TryFrom<u64>`): the device
    /// type, or the text of why there is none.
    pub fn try_from(from: u64) -> (r: Result<DeviceType, String>)
        ensures
            match device_type_spec(from) {
                Ok(d) => r == Ok::<DeviceType, String>(d),
                Err(e) => r matches Err(s) && s@ == device_type_error_text(e),
            },
    {
        match DeviceType::decode(from) {
            Ok(d) => Ok(d),
            Err(e) => Err(e.to_string()),
        }
    }

    /// Splits a 64-bit device type into its company (high half) and device
    /// (low half), and looks both up.
    pub fn decode(from: u64) -> (r: Result<DeviceType, DeviceTypeError>)
        ensures
            r == device_type_spec(from),
    {
        let company_id: u32 = (from >> 32) as u32;
        let device_id: u32 = (from & 0xFFFF_FFFF) as u32;
        assert(from >> 32 == from / 0x1_0000_0000) by (bit_vector);
        assert(from & 0xFFFF_FFFF == from % 0x1_0000_0000) by (bit_vector);
        let company = match CompanyID::from_code(company_id) {
            Some(c) => c,
            None => return Err(DeviceTypeError::UnknownCompany(company_id)),
        };
        match company {
            CompanyID::Void => Ok(DeviceType::Void),
            CompanyID::WizziLab => match WizziLabDevice::from_code(device_id) {
                Some(d) => Ok(DeviceType::WizziLab(d)),
                None => Err(DeviceTypeError::UnknownDevice(device_id)),
            },
            CompanyID::OneSitu => match OneSituDevice::from_code(device_id) {
                Some(d) => Ok(DeviceType::OneSitu(d)),
                None => Err(DeviceTypeError::UnknownDevice(device_id)),
            },
            CompanyID::Kawantech => match KawantechDevice::from_code(device_id) {
                Some(d) => Ok(DeviceType::Kawantech(d)),
                None => Err(DeviceTypeError::UnknownDevice(device_id)),
            },
            CompanyID::WiFindIt => match WiFindItDevice::from_code(device_id) {
                Some(d) => Ok(DeviceType::WiFindIt(d)),
                None => Err(DeviceTypeError::UnknownDevice(device_id)),
            },
            CompanyID::ReachTechnology => match ReachTechnologyDevice::from_code(device_id) {
                Some(d) => Ok(DeviceType::ReachTechnology(d)),
                None => Err(DeviceTypeError::UnknownDevice(device_id)),
            },
            _ => Err(DeviceTypeError::NotImplemented),
        }
    }

    /// The application the device runs, used to find its string tables.
    pub fn app(&self) -> (r: Option<String>)
        ensures
            match r {
                Some(s) => app_name(*self) == Some(s@),
                None => app_name(*self) is None,
            },
    {
        match self {
            DeviceType::WizziLab(d) => match d {
                    WizziLabDevice::D7AMote => Some("wm".to_owned()),
                    WizziLabDevice::D7AFileSystem => Some("wm".to_owned()),
                    WizziLabDevice::GatewaySecondaryModem => Some("gw".to_owned()),
                    WizziLabDevice::Wult => Some("wult".to_owned()),
                    WizziLabDevice::WoltUWBTag => Some("wolt_uwb_tag".to_owned()),
                    WizziLabDevice::WoltUWBAnchor => Some("wolt_uwb_anchor".to_owned()),
                    WizziLabDevice::WoltMeter => Some("wolt_uwb_tag".to_owned()),
                    WizziLabDevice::UguardController => Some("uguard_controller".to_owned()),
                    WizziLabDevice::UguardPeripheral => Some("uguard_peripheral".to_owned()),
                    WizziLabDevice::UguardTag => Some("uguard_tag".to_owned()),
                    WizziLabDevice::UguardSpot => Some("uguard_spot".to_owned()),
                    WizziLabDevice::AirConnect => Some("air_connect".to_owned()),
                    WizziLabDevice::MotionConnect => Some("motion_connect".to_owned()),
                    WizziLabDevice::WBeacon => Some("wbeacon".to_owned()),
                    WizziLabDevice::Wisense2 => Some("ws".to_owned()),
                    WizziLabDevice::Wisp => Some("wisp".to_owned()),
                    WizziLabDevice::WispAir => Some("wispair".to_owned()),
                    WizziLabDevice::Wiswitch => Some("wiswitch".to_owned()),
                    WizziLabDevice::WispLight => Some("wisp_light".to_owned()),
                    WizziLabDevice::AiforsiteAnchor => Some("aiforsite_anchor".to_owned()),
                    WizziLabDevice::WP100 => Some("wp100".to_owned()),
                    WizziLabDevice::LucyTrot => Some("lucy_trot".to_owned()),
                _ => None,
            },
            DeviceType::WiFindIt(d) => match d {
                WiFindItDevice::WFITag => Some("wfi_tag".to_owned()),
            },
            DeviceType::OneSitu(d) => match d {
                OneSituDevice::OS200 => Some("os200".to_owned()),
                OneSituDevice::OS300 => Some("os300".to_owned()),
                OneSituDevice::OS110 => Some("os110".to_owned()),
            },
            _ => None,
        }
    }
}

} // verus!
