//! Volume information, total and per-exchange.

use vstd::prelude::*;
use crate::decimal::{Decimal, DecimalModel};
use crate::websocket::decode::{
    agrees, amount_member, count_member, member, read_amount, read_count, read_member, read_text,
    text_member, DecodeError, DecodeErrorKind, FromJson,
};
use crate::wire::{Json, WireValue};

verus! {

/// The length of the periods over which volume is summed up.
#[derive(Clone, Copy, Debug, PartialEq, Eq, Structural)]
pub enum Interval {
    Minute,
    Hour,
    Day,
}

impl Interval {
    /// The length of the interval in seconds, as the query writes it.
    pub open spec fn seconds(self) -> &'static str {
        match self {
            Interval::Minute => "60",
            Interval::Hour => "3600",
            Interval::Day => "86400",
        }
    }
}

/// The length of an interval in seconds, as the query writes it.
pub fn convert_interval(interval: Interval) -> (seconds: &'static str)
    ensures
        seconds == interval.seconds(),
{
    match interval {
        Interval::Minute => "60",
        Interval::Hour => "3600",
        Interval::Day => "86400",
    }
}

/// The volume of one period, summed over all exchanges.
#[derive(Clone, Debug, PartialEq, Eq)]
pub struct TotalVolumeRecord {
    pub timestamp: usize,
    pub volume: Decimal,
    pub usd_notional: Decimal,
}

/// Mathematical model of a `TotalVolumeRecord`.
pub struct TotalVolumeRecordModel {
    pub timestamp: usize,
    pub volume: DecimalModel,
    pub usd_notional: DecimalModel,
}

impl DeepView for TotalVolumeRecord {
    type V = TotalVolumeRecordModel;

    open spec fn deep_view(&self) -> TotalVolumeRecordModel {
        TotalVolumeRecordModel {
            timestamp: self.timestamp,
            volume: self.volume@,
            usd_notional: self.usd_notional@,
        }
    }
}

impl FromJson for TotalVolumeRecord {
    /// The value is a record, and its members are asked for in the order
    /// in which the type declares them; the first that fails gives the
    /// error. Members that the type does not name are passed over.
    open spec fn decoded(value: Json) -> Result<TotalVolumeRecordModel, DecodeError> {
        let timestamp = count_member(value, "timestamp");
        let volume = amount_member(value, "volume");
        let usd_notional = amount_member(value, "usd_notional");
        if !(value is Record) {
            Err(DecodeError { kind: DecodeErrorKind::ExpectedObject, field: "" })
        } else if timestamp is Err {
            Err(timestamp->Err_0)
        } else if volume is Err {
            Err(volume->Err_0)
        } else if usd_notional is Err {
            Err(usd_notional->Err_0)
        } else {
            Ok(
                TotalVolumeRecordModel {
                    timestamp: timestamp->Ok_0,
                    volume: volume->Ok_0,
                    usd_notional: usd_notional->Ok_0,
                },
            )
        }
    }

    fn from_json(value: &WireValue) -> (r: Result<Self, DecodeError>)
        ensures
            agrees(r, Self::decoded(value@)),
    {
        if !value.is_object() {
            return Err(DecodeError { kind: DecodeErrorKind::ExpectedObject, field: "" });
        }
        let timestamp = read_count(value, "timestamp")?;
        let volume = read_amount(value, "volume")?;
        let usd_notional = read_amount(value, "usd_notional")?;
        Ok(TotalVolumeRecord { timestamp, volume, usd_notional })
    }
}

/// The volume of one exchange in one period.
#[derive(Clone, Debug, PartialEq, Eq)]
pub struct ExchangeVolumeRecord {
    pub exchange: String,
    pub volume: Decimal,
    pub usd_notional: Decimal,
}

/// Mathematical model of a `ExchangeVolumeRecord`.
pub struct ExchangeVolumeRecordModel {
    pub exchange: Seq<char>,
    pub volume: DecimalModel,
    pub usd_notional: DecimalModel,
}

impl DeepView for ExchangeVolumeRecord {
    type V = ExchangeVolumeRecordModel;

    open spec fn deep_view(&self) -> ExchangeVolumeRecordModel {
        ExchangeVolumeRecordModel {
            exchange: self.exchange@,
            volume: self.volume@,
            usd_notional: self.usd_notional@,
        }
    }
}

impl FromJson for ExchangeVolumeRecord {
    /// The value is a record, and its members are asked for in the order
    /// in which the type declares them; the first that fails gives the
    /// error. Members that the type does not name are passed over.
    open spec fn decoded(value: Json) -> Result<ExchangeVolumeRecordModel, DecodeError> {
        let exchange = text_member(value, "exchange");
        let volume = amount_member(value, "volume");
        let usd_notional = amount_member(value, "usd_notional");
        if !(value is Record) {
            Err(DecodeError { kind: DecodeErrorKind::ExpectedObject, field: "" })
        } else if exchange is Err {
            Err(exchange->Err_0)
        } else if volume is Err {
            Err(volume->Err_0)
        } else if usd_notional is Err {
            Err(usd_notional->Err_0)
        } else {
            Ok(
                ExchangeVolumeRecordModel {
                    exchange: exchange->Ok_0,
                    volume: volume->Ok_0,
                    usd_notional: usd_notional->Ok_0,
                },
            )
        }
    }

    fn from_json(value: &WireValue) -> (r: Result<Self, DecodeError>)
        ensures
            agrees(r, Self::decoded(value@)),
    {
        if !value.is_object() {
            return Err(DecodeError { kind: DecodeErrorKind::ExpectedObject, field: "" });
        }
        let exchange = read_text(value, "exchange")?;
        let volume = read_amount(value, "volume")?;
        let usd_notional = read_amount(value, "usd_notional")?;
        Ok(ExchangeVolumeRecord { exchange, volume, usd_notional })
    }
}

/// The volumes of one period, exchange by exchange.
#[derive(Clone, Debug, PartialEq, Eq)]
pub struct ExchangeVolumeList {
    pub timestamp: usize,
    pub volumes: Vec<ExchangeVolumeRecord>,
}

/// Mathematical model of a `ExchangeVolumeList`.
pub struct ExchangeVolumeListModel {
    pub timestamp: usize,
    pub volumes: Seq<ExchangeVolumeRecordModel>,
}

impl DeepView for ExchangeVolumeList {
    type V = ExchangeVolumeListModel;

    open spec fn deep_view(&self) -> ExchangeVolumeListModel {
        ExchangeVolumeListModel {
            timestamp: self.timestamp,
            volumes: self.volumes.deep_view(),
        }
    }
}

impl FromJson for ExchangeVolumeList {
    /// The value is a record, and its members are asked for in the order
    /// in which the type declares them; the first that fails gives the
    /// error. Members that the type does not name are passed over.
    open spec fn decoded(value: Json) -> Result<ExchangeVolumeListModel, DecodeError> {
        let timestamp = count_member(value, "timestamp");
        let volumes = member::<Vec<ExchangeVolumeRecord>>(value, "volumes");
        if !(value is Record) {
            Err(DecodeError { kind: DecodeErrorKind::ExpectedObject, field: "" })
        } else if timestamp is Err {
            Err(timestamp->Err_0)
        } else if volumes is Err {
            Err(volumes->Err_0)
        } else {
            Ok(
                ExchangeVolumeListModel {
                    timestamp: timestamp->Ok_0,
                    volumes: volumes->Ok_0,
                },
            )
        }
    }

    fn from_json(value: &WireValue) -> (r: Result<Self, DecodeError>)
        ensures
            agrees(r, Self::decoded(value@)),
    {
        if !value.is_object() {
            return Err(DecodeError { kind: DecodeErrorKind::ExpectedObject, field: "" });
        }
        let timestamp = read_count(value, "timestamp")?;
        let volumes = read_member::<Vec<ExchangeVolumeRecord>>(value, "volumes")?;
        Ok(ExchangeVolumeList { timestamp, volumes })
    }
}

/// Total volumes, period by period.
#[derive(Clone, Debug, PartialEq, Eq)]
pub struct VolumeResponse {
    pub data: Vec<TotalVolumeRecord>,
}

/// Mathematical model of a `VolumeResponse`.
pub struct VolumeResponseModel {
    pub data: Seq<TotalVolumeRecordModel>,
}

impl DeepView for VolumeResponse {
    type V = VolumeResponseModel;

    open spec fn deep_view(&self) -> VolumeResponseModel {
        VolumeResponseModel {
            data: self.data.deep_view(),
        }
    }
}

impl FromJson for VolumeResponse {
    /// The value is a record, and its members are asked for in the order
    /// in which the type declares them; the first that fails gives the
    /// error. Members that the type does not name are passed over.
    open spec fn decoded(value: Json) -> Result<VolumeResponseModel, DecodeError> {
        let data = member::<Vec<TotalVolumeRecord>>(value, "data");
        if !(value is Record) {
            Err(DecodeError { kind: DecodeErrorKind::ExpectedObject, field: "" })
        } else if data is Err {
            Err(data->Err_0)
        } else {
            Ok(
                VolumeResponseModel {
                    data: data->Ok_0,
                },
            )
        }
    }

    fn from_json(value: &WireValue) -> (r: Result<Self, DecodeError>)
        ensures
            agrees(r, Self::decoded(value@)),
    {
        if !value.is_object() {
            return Err(DecodeError { kind: DecodeErrorKind::ExpectedObject, field: "" });
        }
        let data = read_member::<Vec<TotalVolumeRecord>>(value, "data")?;
        Ok(VolumeResponse { data })
    }
}

/// Volumes by exchange, period by period.
#[derive(Clone, Debug, PartialEq, Eq)]
pub struct ExchangeVolumeResponse {
    pub data: Vec<ExchangeVolumeList>,
}

/// Mathematical model of a `ExchangeVolumeResponse`.
pub struct ExchangeVolumeResponseModel {
    pub data: Seq<ExchangeVolumeListModel>,
}

impl DeepView for ExchangeVolumeResponse {
    type V = ExchangeVolumeResponseModel;

    open spec fn deep_view(&self) -> ExchangeVolumeResponseModel {
        ExchangeVolumeResponseModel {
            data: self.data.deep_view(),
        }
    }
}

impl FromJson for ExchangeVolumeResponse {
    /// The value is a record, and its members are asked for in the order
    /// in which the type declares them; the first that fails gives the
    /// error. Members that the type does not name are passed over.
    open spec fn decoded(value: Json) -> Result<ExchangeVolumeResponseModel, DecodeError> {
        let data = member::<Vec<ExchangeVolumeList>>(value, "data");
        if !(value is Record) {
            Err(DecodeError { kind: DecodeErrorKind::ExpectedObject, field: "" })
        } else if data is Err {
            Err(data->Err_0)
        } else {
            Ok(
                ExchangeVolumeResponseModel {
                    data: data->Ok_0,
                },
            )
        }
    }

    fn from_json(value: &WireValue) -> (r: Result<Self, DecodeError>)
        ensures
            agrees(r, Self::decoded(value@)),
    {
        if !value.is_object() {
            return Err(DecodeError { kind: DecodeErrorKind::ExpectedObject, field: "" });
        }
        let data = read_member::<Vec<ExchangeVolumeList>>(value, "data")?;
        Ok(ExchangeVolumeResponse { data })
    }
}

/// A volume report in one of its two shapes.
#[derive(Clone, Debug, PartialEq, Eq)]
pub enum VolumeRecord {
    ExchangeVolumeResponse(ExchangeVolumeResponse),
    VolumeResponse(VolumeResponse),
}

/// Mathematical model of a `VolumeRecord`.
pub enum VolumeRecordModel {
    ExchangeVolumeResponse(ExchangeVolumeResponseModel),
    VolumeResponse(VolumeResponseModel),
}

impl DeepView for VolumeRecord {
    type V = VolumeRecordModel;

    open spec fn deep_view(&self) -> VolumeRecordModel {
        match self {
            VolumeRecord::ExchangeVolumeResponse(r) => VolumeRecordModel::ExchangeVolumeResponse(
                r.deep_view(),
            ),
            VolumeRecord::VolumeResponse(r) => VolumeRecordModel::VolumeResponse(r.deep_view()),
        }
    }
}

/// What is wrong with the member `data` of a report before any shape is
/// tried: it is missing, it is no list, or the list is empty.
pub open spec fn data_fault(value: Json) -> Option<DecodeError> {
    match value.field("data"@) {
        None => Some(DecodeError { kind: DecodeErrorKind::MissingField, field: "data" }),
        Some(data) => match data.items() {
            None => Some(DecodeError { kind: DecodeErrorKind::ExpectedArray, field: "data" }),
            Some(items) => if items.len() == 0 {
                Some(DecodeError { kind: DecodeErrorKind::Empty, field: "data" })
            } else {
                None
            },
        },
    }
}

impl FromJson for VolumeRecord {
    /// The member `data` must be a list that is not empty. The shapes are
    /// then tried in a fixed order, the report by exchange first and the
    /// total report second, each against the whole value. Where neither
    /// matches, the value is refused.
    open spec fn decoded(value: Json) -> Result<VolumeRecordModel, DecodeError> {
        match data_fault(value) {
            Some(e) => Err(e),
            None => match ExchangeVolumeResponse::decoded(value) {
                Ok(r) => Ok(VolumeRecordModel::ExchangeVolumeResponse(r)),
                Err(_) => match VolumeResponse::decoded(value) {
                    Ok(r) => Ok(VolumeRecordModel::VolumeResponse(r)),
                    Err(_) => Err(
                        DecodeError { kind: DecodeErrorKind::UnknownVariant, field: "data" },
                    ),
                },
            },
        }
    }

    fn from_json(value: &WireValue) -> (r: Result<Self, DecodeError>)
        ensures
            agrees(r, Self::decoded(value@)),
    {
        let data = match value.get("data") {
            None => {
                return Err(DecodeError { kind: DecodeErrorKind::MissingField, field: "data" });
            },
            Some(data) => data,
        };
        let items = match data.as_array() {
            None => {
                return Err(DecodeError { kind: DecodeErrorKind::ExpectedArray, field: "data" });
            },
            Some(items) => items,
        };
        if items.len() == 0 {
            return Err(DecodeError { kind: DecodeErrorKind::Empty, field: "data" });
        }
        match ExchangeVolumeResponse::from_json(value) {
            Ok(r) => Ok(VolumeRecord::ExchangeVolumeResponse(r)),
            Err(_) => match VolumeResponse::from_json(value) {
                Ok(r) => Ok(VolumeRecord::VolumeResponse(r)),
                Err(_) => Err(DecodeError { kind: DecodeErrorKind::UnknownVariant, field: "data" }),
            },
        }
    }
}

} // verus!
