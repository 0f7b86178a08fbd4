//! The battery: its status, its static information and its trip point.
use crate::acpi::{request_of, Acpi};
use crate::argument::{
    method_argument_views, AcpiMethodArgument, MethodArgumentView,
};
use crate::bytes::copied;
use crate::device::DeviceReply;
use crate::error::{AcpiParseError, Error};
use crate::output::{AcpiEvalOutputBufferV1, OutputView};
use vstd::prelude::*;

verus! {

/// The status of a battery. `S` is the battery state, or the bits that the driver reports for it.
#[derive(Debug)]
pub struct BstReturn<S> {
    pub battery_state: S,
    pub battery_present_rate: u32,
    pub battery_remaining_capacity: u32,
    pub battery_present_voltage: u32,
}

/// The static information on a battery. The types stand for the power unit, the technology, the
/// four strings and the swapping capability, or for what the driver reports of them.
#[derive(Debug)]
pub struct BixFixedStrings<U, T, M, N, B, O, C> {
    pub revision: u32,
    pub power_unit: U,
    pub design_capacity: u32,
    pub last_full_charge_capacity: u32,
    pub battery_technology: T,
    pub design_voltage: u32,
    pub design_cap_of_warning: u32,
    pub design_cap_of_low: u32,
    pub cycle_count: u32,
    pub measurement_accuracy: u32,
    pub max_sampling_time: u32,
    pub min_sampling_time: u32,
    pub max_averaging_interval: u32,
    pub min_averaging_interval: u32,
    pub battery_capacity_granularity_1: u32,
    pub battery_capacity_granularity_2: u32,
    pub model_number: M,
    pub serial_number: N,
    pub battery_type: B,
    pub oem_info: O,
    pub battery_swapping_capability: C,
}

/// The status of a battery, as the driver reports it.
pub type ReportedBst = BstReturn<u32>;

/// The static information on a battery, as the driver reports it.
pub type ReportedBix = BixFixedStrings<u32, u32, Vec<u8>, Vec<u8>, Vec<u8>, Vec<u8>, u32>;

/// What the reported parts of the static information were converted to: `None` where a part
/// could not be converted.
#[derive(Debug)]
pub struct BixConversions<U, T, M, N, B, O, C> {
    pub power_unit: Option<U>,
    pub battery_technology: Option<T>,
    pub model_number: Option<M>,
    pub serial_number: Option<N>,
    pub battery_type: Option<B>,
    pub oem_info: Option<O>,
    pub battery_swapping_capability: Option<C>,
}

impl<U, T, M, N, B, O, C> BixConversions<U, T, M, N, B, O, C> {
    /// Whether all parts could be converted.
    pub open spec fn complete(self) -> bool {
        &&& self.power_unit is Some
        &&& self.battery_technology is Some
        &&& self.model_number is Some
        &&& self.serial_number is Some
        &&& self.battery_type is Some
        &&& self.oem_info is Some
        &&& self.battery_swapping_capability is Some
    }
}

impl BstReturn<u32> {
    /// The status with the battery state that its bits were converted to.
    pub fn converted<S>(self, battery_state: Option<S>) -> (r: Result<BstReturn<S>, Error>)
        ensures
            match battery_state {
                Some(state) => r == Ok::<BstReturn<S>, Error>(
                    BstReturn {
                        battery_state: state,
                        battery_present_rate: self.battery_present_rate,
                        battery_remaining_capacity: self.battery_remaining_capacity,
                        battery_present_voltage: self.battery_present_voltage,
                    },
                ),
                None => r == Err::<BstReturn<S>, Error>(Error::InvalidData),
            },
    {
        Ok(
            BstReturn {
                battery_state: Error::converted(battery_state)?,
                battery_present_rate: self.battery_present_rate,
                battery_remaining_capacity: self.battery_remaining_capacity,
                battery_present_voltage: self.battery_present_voltage,
            },
        )
    }
}

impl BixFixedStrings<u32, u32, Vec<u8>, Vec<u8>, Vec<u8>, Vec<u8>, u32> {
    /// The information with the parts that what was reported was converted to.
    pub fn converted<U, T, M, N, B, O, C>(
        self,
        parts: BixConversions<U, T, M, N, B, O, C>,
    ) -> (r: Result<BixFixedStrings<U, T, M, N, B, O, C>, Error>)
        ensures
            if parts.complete() {
                r == Ok::<BixFixedStrings<U, T, M, N, B, O, C>, Error>(
                    BixFixedStrings {
                        revision: self.revision,
                        power_unit: parts.power_unit->0,
                        design_capacity: self.design_capacity,
                        last_full_charge_capacity: self.last_full_charge_capacity,
                        battery_technology: parts.battery_technology->0,
                        design_voltage: self.design_voltage,
                        design_cap_of_warning: self.design_cap_of_warning,
                        design_cap_of_low: self.design_cap_of_low,
                        cycle_count: self.cycle_count,
                        measurement_accuracy: self.measurement_accuracy,
                        max_sampling_time: self.max_sampling_time,
                        min_sampling_time: self.min_sampling_time,
                        max_averaging_interval: self.max_averaging_interval,
                        min_averaging_interval: self.min_averaging_interval,
                        battery_capacity_granularity_1: self.battery_capacity_granularity_1,
                        battery_capacity_granularity_2: self.battery_capacity_granularity_2,
                        model_number: parts.model_number->0,
                        serial_number: parts.serial_number->0,
                        battery_type: parts.battery_type->0,
                        oem_info: parts.oem_info->0,
                        battery_swapping_capability: parts.battery_swapping_capability->0,
                    },
                )
            } else {
                r == Err::<BixFixedStrings<U, T, M, N, B, O, C>, Error>(Error::InvalidData)
            },
    {
        Ok(
            BixFixedStrings {
                revision: self.revision,
                power_unit: Error::converted(parts.power_unit)?,
                design_capacity: self.design_capacity,
                last_full_charge_capacity: self.last_full_charge_capacity,
                battery_technology: Error::converted(parts.battery_technology)?,
                design_voltage: self.design_voltage,
                design_cap_of_warning: self.design_cap_of_warning,
                design_cap_of_low: self.design_cap_of_low,
                cycle_count: self.cycle_count,
                measurement_accuracy: self.measurement_accuracy,
                max_sampling_time: self.max_sampling_time,
                min_sampling_time: self.min_sampling_time,
                max_averaging_interval: self.max_averaging_interval,
                min_averaging_interval: self.min_averaging_interval,
                battery_capacity_granularity_1: self.battery_capacity_granularity_1,
                battery_capacity_granularity_2: self.battery_capacity_granularity_2,
                model_number: Error::converted(parts.model_number)?,
                serial_number: Error::converted(parts.serial_number)?,
                battery_type: Error::converted(parts.battery_type)?,
                oem_info: Error::converted(parts.oem_info)?,
                battery_swapping_capability: Error::converted(parts.battery_swapping_capability)?,
            },
        )
    }
}

/// The number of values in a battery status.
pub const BST_COUNT: u32 = 4;

/// The number of values in the static information on a battery.
pub const BIX_COUNT: u32 = 21;

/// Whether the output has this many values, all of them there.
pub open spec fn has_values(output: OutputView, count: u32) -> bool {
    output.count == count && output.arguments.len() >= count
}

/// Whether the status holds the values of the output, in their order.
pub open spec fn is_status(bst: ReportedBst, output: OutputView) -> bool {
    let a = output.arguments;
    &&& bst.battery_state == a[0].data_32
    &&& bst.battery_present_rate == a[1].data_32
    &&& bst.battery_remaining_capacity == a[2].data_32
    &&& bst.battery_present_voltage == a[3].data_32
}

/// Whether the information holds the values of the output, in their order.
pub open spec fn is_information(bix: ReportedBix, output: OutputView) -> bool {
    let a = output.arguments;
    &&& bix.revision == a[0].data_32
    &&& bix.power_unit == a[1].data_32
    &&& bix.design_capacity == a[2].data_32
    &&& bix.last_full_charge_capacity == a[3].data_32
    &&& bix.battery_technology == a[4].data_32
    &&& bix.design_voltage == a[5].data_32
    &&& bix.design_cap_of_warning == a[6].data_32
    &&& bix.design_cap_of_low == a[7].data_32
    &&& bix.cycle_count == a[8].data_32
    &&& bix.measurement_accuracy == a[9].data_32
    &&& bix.max_sampling_time == a[10].data_32
    &&& bix.min_sampling_time == a[11].data_32
    &&& bix.max_averaging_interval == a[12].data_32
    &&& bix.min_averaging_interval == a[13].data_32
    &&& bix.battery_capacity_granularity_1 == a[14].data_32
    &&& bix.battery_capacity_granularity_2 == a[15].data_32
    &&& bix.model_number@ == a[16].data
    &&& bix.serial_number@ == a[17].data
    &&& bix.battery_type@ == a[18].data
    &&& bix.oem_info@ == a[19].data
    &&& bix.battery_swapping_capability == a[20].data_32
}

impl AcpiEvalOutputBufferV1 {
    /// The data of the argument at `index`.
    pub fn data(&self, index: usize) -> (r: Result<Vec<u8>, Error>)
        ensures
            if index < self.arguments@.len() {
                r matches Ok(data) && data@ == self.arguments@[index as int].data@
            } else {
                r == Err::<Vec<u8>, Error>(Error::UnexpectedResponse)
            },
    {
        match self.arg(index) {
            Ok(arg) => Ok(copied(arg.data.as_slice())),
            Err(e) => Err(e),
        }
    }
}

impl Acpi {
    /// The bytes that ask for the status of the battery.
    pub fn get_bst_request(&self) -> (r: Result<Vec<u8>, AcpiParseError>)
        ensures
            r matches Ok(buf) && request_of("\\_SB.ECT0.TBST"@, seq![]) == Ok::<
                Seq<u8>,
                AcpiParseError,
            >(buf@),
    {
        self.evaluate_request("\\_SB.ECT0.TBST", None)
    }

    /// Reads the status of the battery from the reply.
    pub fn get_bst(&self, reply: DeviceReply) -> (r: Result<ReportedBst, Error>)
        ensures
            match reply.evaluation() {
                Ok(output) => if has_values(output, BST_COUNT) {
                    r matches Ok(bst) && is_status(bst, output)
                } else {
                    r == Err::<ReportedBst, Error>(Error::UnexpectedResponse)
                },
                Err(e) => r == Err::<ReportedBst, Error>(Error::Parse(e)),
            },
    {
        let data: AcpiEvalOutputBufferV1 = match self.evaluate(reply) {
            Ok(output) => output,
            Err(e) => return Err(Error::Parse(e)),
        };
        if data.count != BST_COUNT {
            return Err(Error::UnexpectedResponse);
        }
        Ok(
            BstReturn {
                battery_state: data.data_32(0)?,
                battery_present_rate: data.data_32(1)?,
                battery_remaining_capacity: data.data_32(2)?,
                battery_present_voltage: data.data_32(3)?,
            },
        )
    }

    /// The bytes that ask for the static information on the battery.
    pub fn get_bix_request(&self) -> (r: Result<Vec<u8>, AcpiParseError>)
        ensures
            r matches Ok(buf) && request_of("\\_SB.ECT0.TBIX"@, seq![]) == Ok::<
                Seq<u8>,
                AcpiParseError,
            >(buf@),
    {
        self.evaluate_request("\\_SB.ECT0.TBIX", None)
    }

    /// Reads the static information on the battery from the reply.
    pub fn get_bix(&self, reply: DeviceReply) -> (r: Result<ReportedBix, Error>)
        ensures
            match reply.evaluation() {
                Ok(output) => if has_values(output, BIX_COUNT) {
                    r matches Ok(bix) && is_information(bix, output)
                } else {
                    r == Err::<ReportedBix, Error>(Error::UnexpectedResponse)
                },
                Err(e) => r == Err::<ReportedBix, Error>(Error::Parse(e)),
            },
    {
        let data: AcpiEvalOutputBufferV1 = match self.evaluate(reply) {
            Ok(output) => output,
            Err(e) => return Err(Error::Parse(e)),
        };
        if data.count != BIX_COUNT {
            return Err(Error::UnexpectedResponse);
        }
        Ok(
            BixFixedStrings {
                revision: data.data_32(0)?,
                power_unit: data.data_32(1)?,
                design_capacity: data.data_32(2)?,
                last_full_charge_capacity: data.data_32(3)?,
                battery_technology: data.data_32(4)?,
                design_voltage: data.data_32(5)?,
                design_cap_of_warning: data.data_32(6)?,
                design_cap_of_low: data.data_32(7)?,
                cycle_count: data.data_32(8)?,
                measurement_accuracy: data.data_32(9)?,
                max_sampling_time: data.data_32(10)?,
                min_sampling_time: data.data_32(11)?,
                max_averaging_interval: data.data_32(12)?,
                min_averaging_interval: data.data_32(13)?,
                battery_capacity_granularity_1: data.data_32(14)?,
                battery_capacity_granularity_2: data.data_32(15)?,
                model_number: data.data(16)?,
                serial_number: data.data(17)?,
                battery_type: data.data(18)?,
                oem_info: data.data(19)?,
                battery_swapping_capability: data.data_32(20)?,
            },
        )
    }

    /// The bytes that set the trip point of the battery.
    pub fn set_btp_request(&self, trippoint: u32) -> (r: Result<Vec<u8>, AcpiParseError>)
        ensures
            r matches Ok(buf) && request_of(
                "\\_SB.ECT0.TBTP"@,
                seq![MethodArgumentView::Int(trippoint)],
            ) == Ok::<Seq<u8>, AcpiParseError>(buf@),
    {
        let mut args: Vec<AcpiMethodArgument> = Vec::new();
        args.push(AcpiMethodArgument::Int(trippoint));
        assert(method_argument_views(args@) =~= seq![MethodArgumentView::Int(trippoint)]);
        self.request("\\_SB.ECT0.TBTP", args)
    }

    /// Reads from the reply whether the trip point was set. The method returns no value.
    pub fn set_btp(&self, reply: DeviceReply) -> (r: Result<(), Error>)
        ensures
            match reply.evaluation() {
                Ok(_) => r == Ok::<(), Error>(()),
                Err(e) => r == Err::<(), Error>(Error::Parse(e)),
            },
    {
        match self.evaluate(reply) {
            Ok(_) => Ok(()),
            Err(e) => Err(Error::Parse(e)),
        }
    }
}

} // verus!
