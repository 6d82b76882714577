//! The typed records a decoded sentence produces.

use vstd::prelude::*;

verus! {

/// Satellite navigation system, read from a `$` sentence's talker prefix.
#[derive(Debug, Clone, Copy, PartialEq, Eq, Structural)]
pub enum NavigationSystem {
    Combination,
    Gps,
    Glonass,
    Galileo,
    Beidou,
    Navic,
    Qzss,
    Other,
}

/// AIS station class, read from a `!` sentence's talker prefix.
#[derive(Debug, Clone, Copy, PartialEq, Eq, Structural)]
pub enum Station {
    BaseAisStation,
    DependentAisBaseStation,
    MobileAisStation,
    AidToNavigationAisStation,
    AisReceivingStation,
    LimitedBaseStation,
    AisTransmittingStation,
    RepeaterAisStation,
    Other,
}

/// AIS transceiver class.
#[derive(Debug, Clone, Copy, PartialEq, Eq, Structural)]
pub enum AisClass {
    ClassA,
    ClassB,
}

/// Navigation status of a Class A position report.
#[derive(Debug, Clone, Copy, PartialEq, Eq, Structural)]
pub enum NavigationStatus {
    UnderWayUsingEngine,
    AtAnchor,
    NotUnderCommand,
    RestrictedManoeuvrability,
    ConstrainedByDraught,
    Moored,
    Aground,
    EngagedInFishing,
    UnderWaySailing,
    ReservedForHsc,
    ReservedForWig,
    Reserved11,
    Reserved12,
    Reserved13,
    AisSartIsActive,
    NotDefined,
}

/// The status a raw four-bit navigation-status field denotes.
pub open spec fn spec_nav_status(raw: nat) -> NavigationStatus {
    if raw == 0 {
        NavigationStatus::UnderWayUsingEngine
    } else if raw == 1 {
        NavigationStatus::AtAnchor
    } else if raw == 2 {
        NavigationStatus::NotUnderCommand
    } else if raw == 3 {
        NavigationStatus::RestrictedManoeuvrability
    } else if raw == 4 {
        NavigationStatus::ConstrainedByDraught
    } else if raw == 5 {
        NavigationStatus::Moored
    } else if raw == 6 {
        NavigationStatus::Aground
    } else if raw == 7 {
        NavigationStatus::EngagedInFishing
    } else if raw == 8 {
        NavigationStatus::UnderWaySailing
    } else if raw == 9 {
        NavigationStatus::ReservedForHsc
    } else if raw == 10 {
        NavigationStatus::ReservedForWig
    } else if raw == 11 {
        NavigationStatus::Reserved11
    } else if raw == 12 {
        NavigationStatus::Reserved12
    } else if raw == 13 {
        NavigationStatus::Reserved13
    } else if raw == 14 {
        NavigationStatus::AisSartIsActive
    } else {
        NavigationStatus::NotDefined
    }
}

/// Which way the vessel is turning, from the sign of the raw ROT field.
#[derive(Debug, Clone, Copy, PartialEq, Eq, Structural)]
pub enum RotDirection {
    Port,
    Center,
    Starboard,
}

/// Positioning-system state carried by special values of the timestamp field.
#[derive(Debug, Clone, Copy, PartialEq, Eq, Structural)]
pub enum PositioningSystemMeta {
    ManualInputMode,
    DeadReckoningMode,
    Inoperative,
}

/// GNSS sentence class recognized by the dispatcher; the matching handler
/// is an external collaborator supplied by the caller.
#[derive(Debug, Clone, Copy, PartialEq, Eq, Structural)]
pub enum GnssKind {
    Gga,
    Rmc,
    Gsa,
    Gsv,
    Vtg,
    Gll,
}

/// Dynamic position and motion report (AIS types 1, 2, 3, 18 and 19).
///
/// Scaled quantities are kept raw, in the units the wire uses, with the
/// documented sentinel already mapped to `None`:
/// speed over ground in tenths of a knot; longitude and latitude in
/// 1/600000 of a degree; course over ground in tenths of a degree; true
/// heading in whole degrees; rate of turn as the raw signed field, whose
/// magnitude in degrees per minute is `(raw / 4.733)` squared.
#[derive(Debug, Clone, PartialEq)]
pub struct VesselDynamicData {
    pub own_vessel: bool,
    pub station: Station,
    pub ais_type: AisClass,
    pub mmsi: u32,
    pub nav_status: NavigationStatus,
    pub rot_raw: Option<i8>,
    pub rot_direction: Option<RotDirection>,
    pub sog_deciknots: Option<u16>,
    pub high_position_accuracy: bool,
    pub longitude_min600k: Option<i32>,
    pub latitude_min600k: Option<i32>,
    pub cog_decidegrees: Option<u16>,
    pub heading_true_degrees: Option<u16>,
    pub timestamp_seconds: u8,
    pub positioning_system_meta: Option<PositioningSystemMeta>,
    pub special_manoeuvre: Option<bool>,
    pub raim_flag: bool,
    pub class_b_unit_flag: Option<bool>,
    pub class_b_display: Option<bool>,
    pub class_b_dsc: Option<bool>,
    pub class_b_band_flag: Option<bool>,
    pub class_b_msg22_flag: Option<bool>,
    pub class_b_mode_flag: Option<bool>,
    pub class_b_css_flag: Option<bool>,
    pub radio_status: Option<u32>,
}

/// Static and voyage data (AIS types 5 and 24). A type 24 part carries
/// only the fields of that part; the caller merges parts with `merge`.
#[derive(Debug, Clone, PartialEq)]
pub struct VesselStaticData {
    pub own_vessel: bool,
    pub ais_type: AisClass,
    pub mmsi: u32,
    pub ais_version_indicator: Option<u8>,
    pub imo_number: Option<u32>,
    pub call_sign: Option<String>,
    pub name: Option<String>,
    pub ship_cargo_type: Option<u8>,
    pub equipment_vendor_id: Option<String>,
    pub dimension_to_bow: Option<u16>,
    pub dimension_to_stern: Option<u16>,
    pub dimension_to_port: Option<u8>,
    pub dimension_to_starboard: Option<u8>,
    pub position_fix_type: Option<u8>,
    pub eta_month: Option<u8>,
    pub eta_day: Option<u8>,
    pub eta_hour: Option<u8>,
    pub eta_minute: Option<u8>,
    pub draught_decimeters: Option<u8>,
    pub destination: Option<String>,
    pub mothership_mmsi: Option<u32>,
}

/// Mathematical model of a static record: strings become character sequences.
#[verifier::ext_equal]
pub struct StaticModel {
    pub own_vessel: bool,
    pub ais_type: AisClass,
    pub mmsi: u32,
    pub ais_version_indicator: Option<u8>,
    pub imo_number: Option<u32>,
    pub call_sign: Option<Seq<char>>,
    pub name: Option<Seq<char>>,
    pub ship_cargo_type: Option<u8>,
    pub equipment_vendor_id: Option<Seq<char>>,
    pub dimension_to_bow: Option<u16>,
    pub dimension_to_stern: Option<u16>,
    pub dimension_to_port: Option<u8>,
    pub dimension_to_starboard: Option<u8>,
    pub position_fix_type: Option<u8>,
    pub eta_month: Option<u8>,
    pub eta_day: Option<u8>,
    pub eta_hour: Option<u8>,
    pub eta_minute: Option<u8>,
    pub draught_decimeters: Option<u8>,
    pub destination: Option<Seq<char>>,
    pub mothership_mmsi: Option<u32>,
}

pub open spec fn string_field_model(f: Option<String>) -> Option<Seq<char>> {
    match f {
        Some(s) => Some(s@),
        None => None,
    }
}

impl View for VesselStaticData {
    type V = StaticModel;

    open spec fn view(&self) -> StaticModel {
        StaticModel {
            own_vessel: self.own_vessel,
            ais_type: self.ais_type,
            mmsi: self.mmsi,
            ais_version_indicator: self.ais_version_indicator,
            imo_number: self.imo_number,
            call_sign: string_field_model(self.call_sign),
            name: string_field_model(self.name),
            ship_cargo_type: self.ship_cargo_type,
            equipment_vendor_id: string_field_model(self.equipment_vendor_id),
            dimension_to_bow: self.dimension_to_bow,
            dimension_to_stern: self.dimension_to_stern,
            dimension_to_port: self.dimension_to_port,
            dimension_to_starboard: self.dimension_to_starboard,
            position_fix_type: self.position_fix_type,
            eta_month: self.eta_month,
            eta_day: self.eta_day,
            eta_hour: self.eta_hour,
            eta_minute: self.eta_minute,
            draught_decimeters: self.draught_decimeters,
            destination: string_field_model(self.destination),
            mothership_mmsi: self.mothership_mmsi,
        }
    }
}

/// A field-wise merge of two static records: a field present in `b`
/// wins; a field absent in `b` keeps `a`'s value. The identifying fields
/// (`own_vessel`, `ais_type`, `mmsi`) stay those of `a`.
pub open spec fn merged(a: StaticModel, b: StaticModel) -> StaticModel {
    StaticModel {
        own_vessel: a.own_vessel,
        ais_type: a.ais_type,
        mmsi: a.mmsi,
        ais_version_indicator: if b.ais_version_indicator is Some {
            b.ais_version_indicator
        } else {
            a.ais_version_indicator
        },
        imo_number: if b.imo_number is Some {
            b.imo_number
        } else {
            a.imo_number
        },
        call_sign: if b.call_sign is Some {
            b.call_sign
        } else {
            a.call_sign
        },
        name: if b.name is Some {
            b.name
        } else {
            a.name
        },
        ship_cargo_type: if b.ship_cargo_type is Some {
            b.ship_cargo_type
        } else {
            a.ship_cargo_type
        },
        equipment_vendor_id: if b.equipment_vendor_id is Some {
            b.equipment_vendor_id
        } else {
            a.equipment_vendor_id
        },
        dimension_to_bow: if b.dimension_to_bow is Some {
            b.dimension_to_bow
        } else {
            a.dimension_to_bow
        },
        dimension_to_stern: if b.dimension_to_stern is Some {
            b.dimension_to_stern
        } else {
            a.dimension_to_stern
        },
        dimension_to_port: if b.dimension_to_port is Some {
            b.dimension_to_port
        } else {
            a.dimension_to_port
        },
        dimension_to_starboard: if b.dimension_to_starboard is Some {
            b.dimension_to_starboard
        } else {
            a.dimension_to_starboard
        },
        position_fix_type: if b.position_fix_type is Some {
            b.position_fix_type
        } else {
            a.position_fix_type
        },
        eta_month: if b.eta_month is Some {
            b.eta_month
        } else {
            a.eta_month
        },
        eta_day: if b.eta_day is Some {
            b.eta_day
        } else {
            a.eta_day
        },
        eta_hour: if b.eta_hour is Some {
            b.eta_hour
        } else {
            a.eta_hour
        },
        eta_minute: if b.eta_minute is Some {
            b.eta_minute
        } else {
            a.eta_minute
        },
        draught_decimeters: if b.draught_decimeters is Some {
            b.draught_decimeters
        } else {
            a.draught_decimeters
        },
        destination: if b.destination is Some {
            b.destination
        } else {
            a.destination
        },
        mothership_mmsi: if b.mothership_mmsi is Some {
            b.mothership_mmsi
        } else {
            a.mothership_mmsi
        },
    }
}

/// A static record with every optional field absent.
pub open spec fn is_empty_static(e: StaticModel) -> bool {
    &&& e.ais_version_indicator is None
    &&& e.imo_number is None
    &&& e.call_sign is None
    &&& e.name is None
    &&& e.ship_cargo_type is None
    &&& e.equipment_vendor_id is None
    &&& e.dimension_to_bow is None
    &&& e.dimension_to_stern is None
    &&& e.dimension_to_port is None
    &&& e.dimension_to_starboard is None
    &&& e.position_fix_type is None
    &&& e.eta_month is None
    &&& e.eta_day is None
    &&& e.eta_hour is None
    &&& e.eta_minute is None
    &&& e.draught_decimeters is None
    &&& e.destination is None
    &&& e.mothership_mmsi is None
}

/// Two records merge the same way in either order when they identify the
/// same vessel and no field is present, with different values, in both.
pub open spec fn mergeable_either_way(a: StaticModel, b: StaticModel) -> bool {
    &&& a.own_vessel == b.own_vessel
    &&& a.ais_type == b.ais_type
    &&& a.mmsi == b.mmsi
    &&& (a.ais_version_indicator is Some && b.ais_version_indicator is Some
        ==> a.ais_version_indicator == b.ais_version_indicator)
    &&& (a.imo_number is Some && b.imo_number is Some ==> a.imo_number == b.imo_number)
    &&& (a.call_sign is Some && b.call_sign is Some ==> a.call_sign == b.call_sign)
    &&& (a.name is Some && b.name is Some ==> a.name == b.name)
    &&& (a.ship_cargo_type is Some && b.ship_cargo_type is Some ==> a.ship_cargo_type
        == b.ship_cargo_type)
    &&& (a.equipment_vendor_id is Some && b.equipment_vendor_id is Some
        ==> a.equipment_vendor_id == b.equipment_vendor_id)
    &&& (a.dimension_to_bow is Some && b.dimension_to_bow is Some ==> a.dimension_to_bow
        == b.dimension_to_bow)
    &&& (a.dimension_to_stern is Some && b.dimension_to_stern is Some ==> a.dimension_to_stern
        == b.dimension_to_stern)
    &&& (a.dimension_to_port is Some && b.dimension_to_port is Some ==> a.dimension_to_port
        == b.dimension_to_port)
    &&& (a.dimension_to_starboard is Some && b.dimension_to_starboard is Some
        ==> a.dimension_to_starboard == b.dimension_to_starboard)
    &&& (a.position_fix_type is Some && b.position_fix_type is Some ==> a.position_fix_type
        == b.position_fix_type)
    &&& (a.eta_month is Some && b.eta_month is Some ==> a.eta_month == b.eta_month)
    &&& (a.eta_day is Some && b.eta_day is Some ==> a.eta_day == b.eta_day)
    &&& (a.eta_hour is Some && b.eta_hour is Some ==> a.eta_hour == b.eta_hour)
    &&& (a.eta_minute is Some && b.eta_minute is Some ==> a.eta_minute == b.eta_minute)
    &&& (a.draught_decimeters is Some && b.draught_decimeters is Some ==> a.draught_decimeters
        == b.draught_decimeters)
    &&& (a.destination is Some && b.destination is Some ==> a.destination == b.destination)
    &&& (a.mothership_mmsi is Some && b.mothership_mmsi is Some ==> a.mothership_mmsi
        == b.mothership_mmsi)
}

/// Merging with an all-absent record changes nothing.
pub proof fn lemma_merge_empty(x: StaticModel, e: StaticModel)
    requires
        is_empty_static(e),
    ensures
        merged(x, e) == x,
{
    assert(merged(x, e) =~= x);
}

/// Merging is associative: fields are overwritten by the latest present
/// value whichever way the merges are grouped.
pub proof fn lemma_merge_assoc(a: StaticModel, b: StaticModel, c: StaticModel)
    ensures
        merged(merged(a, b), c) == merged(a, merged(b, c)),
{
    assert(merged(merged(a, b), c) =~= merged(a, merged(b, c)));
}

/// When no field is present on both sides with different values, the
/// merge is the same in either order.
pub proof fn lemma_merge_order_independent(a: StaticModel, b: StaticModel)
    requires
        mergeable_either_way(a, b),
    ensures
        merged(a, b) == merged(b, a),
{
    assert(merged(a, b) =~= merged(b, a));
}

fn pick_str(a: &Option<String>, b: &Option<String>) -> (r: Option<String>)
    ensures
        string_field_model(r) == (if string_field_model(*b) is Some {
            string_field_model(*b)
        } else {
            string_field_model(*a)
        }),
{
    match b {
        Some(s) => Some(s.clone()),
        None => match a {
            Some(s) => Some(s.clone()),
            None => None,
        },
    }
}

impl VesselStaticData {
    /// Merges `other` into `self` field by field: a field present in
    /// `other` overrides; a field absent in `other` keeps `self`'s value.
    #[verifier::rlimit(60)]
    pub fn merge(&self, other: &VesselStaticData) -> (r: VesselStaticData)
        ensures
            r@ == merged(self@, other@),
    {
        let r = VesselStaticData {
            own_vessel: self.own_vessel,
            ais_type: self.ais_type,
            mmsi: self.mmsi,
            ais_version_indicator: if other.ais_version_indicator.is_some() {
                other.ais_version_indicator
            } else {
                self.ais_version_indicator
            },
            imo_number: if other.imo_number.is_some() {
                other.imo_number
            } else {
                self.imo_number
            },
            call_sign: pick_str(&self.call_sign, &other.call_sign),
            name: pick_str(&self.name, &other.name),
            ship_cargo_type: if other.ship_cargo_type.is_some() {
                other.ship_cargo_type
            } else {
                self.ship_cargo_type
            },
            equipment_vendor_id: pick_str(&self.equipment_vendor_id, &other.equipment_vendor_id),
            dimension_to_bow: if other.dimension_to_bow.is_some() {
                other.dimension_to_bow
            } else {
                self.dimension_to_bow
            },
            dimension_to_stern: if other.dimension_to_stern.is_some() {
                other.dimension_to_stern
            } else {
                self.dimension_to_stern
            },
            dimension_to_port: if other.dimension_to_port.is_some() {
                other.dimension_to_port
            } else {
                self.dimension_to_port
            },
            dimension_to_starboard: if other.dimension_to_starboard.is_some() {
                other.dimension_to_starboard
            } else {
                self.dimension_to_starboard
            },
            position_fix_type: if other.position_fix_type.is_some() {
                other.position_fix_type
            } else {
                self.position_fix_type
            },
            eta_month: if other.eta_month.is_some() {
                other.eta_month
            } else {
                self.eta_month
            },
            eta_day: if other.eta_day.is_some() {
                other.eta_day
            } else {
                self.eta_day
            },
            eta_hour: if other.eta_hour.is_some() {
                other.eta_hour
            } else {
                self.eta_hour
            },
            eta_minute: if other.eta_minute.is_some() {
                other.eta_minute
            } else {
                self.eta_minute
            },
            draught_decimeters: if other.draught_decimeters.is_some() {
                other.draught_decimeters
            } else {
                self.draught_decimeters
            },
            destination: pick_str(&self.destination, &other.destination),
            mothership_mmsi: if other.mothership_mmsi.is_some() {
                other.mothership_mmsi
            } else {
                self.mothership_mmsi
            },
        };
        proof {
            assert(r@ =~= merged(self@, other@));
        }
        r
    }
}

/// What one decoded sentence yields: a typed record, a routed GNSS
/// sentence for an external handler, or the first half of a two-fragment
/// transmission, still incomplete.
#[derive(Debug, Clone, PartialEq)]
pub enum ParsedSentence {
    VesselDynamicData(VesselDynamicData),
    VesselStaticData(VesselStaticData),
    /// A recognized GNSS sentence, routed but not decoded here: the
    /// matching handler is an external collaborator that receives the
    /// checksum-stripped body and the talker's navigation system.
    GnssPending { kind: GnssKind, system: NavigationSystem, body: String },
    /// A valid first half of a two-fragment transmission; nothing decoded.
    Incomplete,
}

/// Mathematical model of a parsed sentence.
pub enum SentenceModel {
    Dynamic(VesselDynamicData),
    Fixed(StaticModel),
    GnssPending { kind: GnssKind, system: NavigationSystem, body: Seq<char> },
    Incomplete,
}

impl View for ParsedSentence {
    type V = SentenceModel;

    open spec fn view(&self) -> SentenceModel {
        match self {
            ParsedSentence::VesselDynamicData(d) => SentenceModel::Dynamic(*d),
            ParsedSentence::VesselStaticData(d) => SentenceModel::Fixed(d@),
            ParsedSentence::GnssPending { kind, system, body } => SentenceModel::GnssPending {
                kind: *kind,
                system: *system,
                body: body@,
            },
            ParsedSentence::Incomplete => SentenceModel::Incomplete,
        }
    }
}

} // verus!
