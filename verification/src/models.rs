//! The fixed records into which the payloads of a device are decoded.

use vstd::prelude::*;
use crate::decode::found_value;
use crate::decode::read_section;
use crate::decode::section_readings;
use crate::decode::DecodeReason;
use crate::decode::FieldSpec;
use crate::decode::Reading;
use crate::format::push_metric;
use crate::format::section_lines;
use crate::json::Json;

verus! {

/// The channels of the battery management system. Only a device with a
/// battery has them.
#[derive(Debug, PartialEq, Eq)]
pub struct FroniusBatterManagementReadableChannels {
    pub fronius_bat_value: Reading,
    pub fronius_bat_voltage: Reading,
    pub fronius_bat_health: Reading,
    pub fronius_temp_bat_ambient: Reading,
    pub fronius_temp_bat_cell: Reading,
    pub fronius_bat_energy_charged: Reading,
    pub fronius_bat_energy_discharged: Reading,
}

impl FroniusBatterManagementReadableChannels {
    /// The fields of the section, in the order in which they are written.
    pub open spec fn layout() -> Seq<FieldSpec> {
        seq![
            FieldSpec {
                name: "fronius_bat_value",
                vendor_key: "BAT_VALUE_STATE_OF_CHARGE_RELATIVE_U16",
                required: true,
            },
            FieldSpec {
                name: "fronius_bat_voltage",
                vendor_key: "BAT_VOLTAGE_DC_INTERNAL_F64",
                required: true,
            },
            FieldSpec {
                name: "fronius_bat_health",
                vendor_key: "BAT_VALUE_STATE_OF_HEALTH_RELATIVE_U16",
                required: true,
            },
            FieldSpec {
                name: "fronius_temp_bat_ambient",
                vendor_key: "DEVICE_TEMPERATURE_AMBIENTEMEAN_F32",
                required: true,
            },
            FieldSpec {
                name: "fronius_temp_bat_cell",
                vendor_key: "BAT_TEMPERATURE_CELL_F64",
                required: true,
            },
            FieldSpec {
                name: "fronius_bat_energy_charged",
                vendor_key: "BAT_ENERGYACTIVE_LIFETIME_CHARGED_F64",
                required: true,
            },
            FieldSpec {
                name: "fronius_bat_energy_discharged",
                vendor_key: "BAT_ENERGYACTIVE_LIFETIME_DISCHARGED_F64",
                required: true,
            },
        ]
    }

    /// The fields of the section, in the order in which they are written.
    pub fn fields() -> (fields: Vec<FieldSpec>)
        ensures
            fields@ == Self::layout(),
    {
        let mut fields: Vec<FieldSpec> = Vec::new();
        fields.push(
            FieldSpec {
                name: "fronius_bat_value",
                vendor_key: "BAT_VALUE_STATE_OF_CHARGE_RELATIVE_U16",
                required: true,
            },
        );
        fields.push(
            FieldSpec {
                name: "fronius_bat_voltage",
                vendor_key: "BAT_VOLTAGE_DC_INTERNAL_F64",
                required: true,
            },
        );
        fields.push(
            FieldSpec {
                name: "fronius_bat_health",
                vendor_key: "BAT_VALUE_STATE_OF_HEALTH_RELATIVE_U16",
                required: true,
            },
        );
        fields.push(
            FieldSpec {
                name: "fronius_temp_bat_ambient",
                vendor_key: "DEVICE_TEMPERATURE_AMBIENTEMEAN_F32",
                required: true,
            },
        );
        fields.push(
            FieldSpec {
                name: "fronius_temp_bat_cell",
                vendor_key: "BAT_TEMPERATURE_CELL_F64",
                required: true,
            },
        );
        fields.push(
            FieldSpec {
                name: "fronius_bat_energy_charged",
                vendor_key: "BAT_ENERGYACTIVE_LIFETIME_CHARGED_F64",
                required: true,
            },
        );
        fields.push(
            FieldSpec {
                name: "fronius_bat_energy_discharged",
                vendor_key: "BAT_ENERGYACTIVE_LIFETIME_DISCHARGED_F64",
                required: true,
            },
        );
        assert(fields@ =~= Self::layout());
        fields
    }

    /// The readings of the record, in the order of its fields.
    pub open spec fn readings(&self) -> Seq<Reading> {
        seq![
            self.fronius_bat_value,
            self.fronius_bat_voltage,
            self.fronius_bat_health,
            self.fronius_temp_bat_ambient,
            self.fronius_temp_bat_cell,
            self.fronius_bat_energy_charged,
            self.fronius_bat_energy_discharged,
        ]
    }

    /// The record that holds the given readings, one for each field.
    pub open spec fn from_readings(readings: Seq<Reading>) -> Self {
        FroniusBatterManagementReadableChannels {
            fronius_bat_value: readings[0],
            fronius_bat_voltage: readings[1],
            fronius_bat_health: readings[2],
            fronius_temp_bat_ambient: readings[3],
            fronius_temp_bat_cell: readings[4],
            fronius_bat_energy_charged: readings[5],
            fronius_bat_energy_discharged: readings[6],
        }
    }

    /// The record that a section of a payload stands for: none where the
    /// section is missing or `null`, an error where it cannot be read.
    pub open spec fn decoded(found: Option<Json>) -> Result<
        Option<FroniusBatterManagementReadableChannels>,
        DecodeReason,
    > {
        match section_readings(found, Self::layout()) {
            Ok(Some(readings)) => Ok(Some(Self::from_readings(readings))),
            Ok(None) => Ok(None),
            Err(reason) => Err(reason),
        }
    }

    /// Decodes the section that a lookup in a payload has found.
    pub fn decode(found: Option<&Json>) -> (record: Result<
        Option<FroniusBatterManagementReadableChannels>,
        DecodeReason,
    >)
        ensures
            record == Self::decoded(found_value(found)),
    {
        let layout = Self::fields();
        match read_section(found, &layout) {
            Err(reason) => Err(reason),
            Ok(None) => Ok(None),
            Ok(Some(readings)) => {
                let mut readings = readings;
                let fronius_bat_energy_discharged = readings.pop().unwrap();
                let fronius_bat_energy_charged = readings.pop().unwrap();
                let fronius_temp_bat_cell = readings.pop().unwrap();
                let fronius_temp_bat_ambient = readings.pop().unwrap();
                let fronius_bat_health = readings.pop().unwrap();
                let fronius_bat_voltage = readings.pop().unwrap();
                let fronius_bat_value = readings.pop().unwrap();
                Ok(
                    Some(
                        FroniusBatterManagementReadableChannels {
                            fronius_bat_value,
                            fronius_bat_voltage,
                            fronius_bat_health,
                            fronius_temp_bat_ambient,
                            fronius_temp_bat_cell,
                            fronius_bat_energy_charged,
                            fronius_bat_energy_discharged,
                        },
                    ),
                )
            },
        }
    }

    /// The metric lines of the record: one line for each field that has a
    /// value, in the order of the fields.
    pub open spec fn lines(&self, label: Seq<char>) -> Seq<char> {
        section_lines(Self::layout(), self.readings(), label, Self::layout().len())
    }

    /// Writes the metric lines of the record at the end of `out`.
    pub fn push_lines(&self, out: &mut String, label: &str)
        ensures
            final(out)@ == old(out)@ + self.lines(label@),
    {
        let ghost layout = Self::layout();
        let ghost readings = self.readings();
        assert(out@ =~= old(out)@ + section_lines(layout, readings, label@, 0));
        push_metric(out, "fronius_bat_value", label, &self.fronius_bat_value);
        assert(out@ =~= old(out)@ + section_lines(layout, readings, label@, 1)) by {
            assert(layout[0].name@ == "fronius_bat_value"@);
            assert(readings[0] == self.fronius_bat_value);
        }
        push_metric(out, "fronius_bat_voltage", label, &self.fronius_bat_voltage);
        assert(out@ =~= old(out)@ + section_lines(layout, readings, label@, 2)) by {
            assert(layout[1].name@ == "fronius_bat_voltage"@);
            assert(readings[1] == self.fronius_bat_voltage);
        }
        push_metric(out, "fronius_bat_health", label, &self.fronius_bat_health);
        assert(out@ =~= old(out)@ + section_lines(layout, readings, label@, 3)) by {
            assert(layout[2].name@ == "fronius_bat_health"@);
            assert(readings[2] == self.fronius_bat_health);
        }
        push_metric(out, "fronius_temp_bat_ambient", label, &self.fronius_temp_bat_ambient);
        assert(out@ =~= old(out)@ + section_lines(layout, readings, label@, 4)) by {
            assert(layout[3].name@ == "fronius_temp_bat_ambient"@);
            assert(readings[3] == self.fronius_temp_bat_ambient);
        }
        push_metric(out, "fronius_temp_bat_cell", label, &self.fronius_temp_bat_cell);
        assert(out@ =~= old(out)@ + section_lines(layout, readings, label@, 5)) by {
            assert(layout[4].name@ == "fronius_temp_bat_cell"@);
            assert(readings[4] == self.fronius_temp_bat_cell);
        }
        push_metric(out, "fronius_bat_energy_charged", label, &self.fronius_bat_energy_charged);
        assert(out@ =~= old(out)@ + section_lines(layout, readings, label@, 6)) by {
            assert(layout[5].name@ == "fronius_bat_energy_charged"@);
            assert(readings[5] == self.fronius_bat_energy_charged);
        }
        push_metric(
            out,
            "fronius_bat_energy_discharged",
            label,
            &self.fronius_bat_energy_discharged,
        );
        assert(out@ =~= old(out)@ + section_lines(layout, readings, label@, 7)) by {
            assert(layout[6].name@ == "fronius_bat_energy_discharged"@);
            assert(readings[6] == self.fronius_bat_energy_discharged);
        }
    }
}

/// The channels of the inverter cache.
#[derive(Debug, PartialEq, Eq)]
pub struct FroniusCacheReadableChannels {
    pub fronius_power_gen: Reading,
    pub fronius_power_apparent: Reading,
    pub fronius_power_reactive: Reading,
    pub fronius_temp_inverter: Reading,
}

impl FroniusCacheReadableChannels {
    /// The fields of the section, in the order in which they are written.
    pub open spec fn layout() -> Seq<FieldSpec> {
        seq![
            FieldSpec {
                name: "fronius_power_gen",
                vendor_key: "ACBRIDGE_POWERACTIVE_SUM_MEAN_F32",
                required: true,
            },
            FieldSpec {
                name: "fronius_power_apparent",
                vendor_key: "ACBRIDGE_POWERAPPARENT_SUM_MEAN_F32",
                required: true,
            },
            FieldSpec {
                name: "fronius_power_reactive",
                vendor_key: "ACBRIDGE_POWERREACTIVE_SUM_MEAN_F32",
                required: true,
            },
            FieldSpec {
                name: "fronius_temp_inverter",
                vendor_key: "DEVICE_TEMPERATURE_AMBIENTEMEAN_F32",
                required: true,
            },
        ]
    }

    /// The fields of the section, in the order in which they are written.
    pub fn fields() -> (fields: Vec<FieldSpec>)
        ensures
            fields@ == Self::layout(),
    {
        let mut fields: Vec<FieldSpec> = Vec::new();
        fields.push(
            FieldSpec {
                name: "fronius_power_gen",
                vendor_key: "ACBRIDGE_POWERACTIVE_SUM_MEAN_F32",
                required: true,
            },
        );
        fields.push(
            FieldSpec {
                name: "fronius_power_apparent",
                vendor_key: "ACBRIDGE_POWERAPPARENT_SUM_MEAN_F32",
                required: true,
            },
        );
        fields.push(
            FieldSpec {
                name: "fronius_power_reactive",
                vendor_key: "ACBRIDGE_POWERREACTIVE_SUM_MEAN_F32",
                required: true,
            },
        );
        fields.push(
            FieldSpec {
                name: "fronius_temp_inverter",
                vendor_key: "DEVICE_TEMPERATURE_AMBIENTEMEAN_F32",
                required: true,
            },
        );
        assert(fields@ =~= Self::layout());
        fields
    }

    /// The readings of the record, in the order of its fields.
    pub open spec fn readings(&self) -> Seq<Reading> {
        seq![
            self.fronius_power_gen,
            self.fronius_power_apparent,
            self.fronius_power_reactive,
            self.fronius_temp_inverter,
        ]
    }

    /// The record that holds the given readings, one for each field.
    pub open spec fn from_readings(readings: Seq<Reading>) -> Self {
        FroniusCacheReadableChannels {
            fronius_power_gen: readings[0],
            fronius_power_apparent: readings[1],
            fronius_power_reactive: readings[2],
            fronius_temp_inverter: readings[3],
        }
    }

    /// The record that a section of a payload stands for: none where the
    /// section is missing or `null`, an error where it cannot be read.
    pub open spec fn decoded(found: Option<Json>) -> Result<
        Option<FroniusCacheReadableChannels>,
        DecodeReason,
    > {
        match section_readings(found, Self::layout()) {
            Ok(Some(readings)) => Ok(Some(Self::from_readings(readings))),
            Ok(None) => Ok(None),
            Err(reason) => Err(reason),
        }
    }

    /// Decodes the section that a lookup in a payload has found.
    pub fn decode(found: Option<&Json>) -> (record: Result<
        Option<FroniusCacheReadableChannels>,
        DecodeReason,
    >)
        ensures
            record == Self::decoded(found_value(found)),
    {
        let layout = Self::fields();
        match read_section(found, &layout) {
            Err(reason) => Err(reason),
            Ok(None) => Ok(None),
            Ok(Some(readings)) => {
                let mut readings = readings;
                let fronius_temp_inverter = readings.pop().unwrap();
                let fronius_power_reactive = readings.pop().unwrap();
                let fronius_power_apparent = readings.pop().unwrap();
                let fronius_power_gen = readings.pop().unwrap();
                Ok(
                    Some(
                        FroniusCacheReadableChannels {
                            fronius_power_gen,
                            fronius_power_apparent,
                            fronius_power_reactive,
                            fronius_temp_inverter,
                        },
                    ),
                )
            },
        }
    }

    /// The metric lines of the record: one line for each field that has a
    /// value, in the order of the fields.
    pub open spec fn lines(&self, label: Seq<char>) -> Seq<char> {
        section_lines(Self::layout(), self.readings(), label, Self::layout().len())
    }

    /// Writes the metric lines of the record at the end of `out`.
    pub fn push_lines(&self, out: &mut String, label: &str)
        ensures
            final(out)@ == old(out)@ + self.lines(label@),
    {
        let ghost layout = Self::layout();
        let ghost readings = self.readings();
        assert(out@ =~= old(out)@ + section_lines(layout, readings, label@, 0));
        push_metric(out, "fronius_power_gen", label, &self.fronius_power_gen);
        assert(out@ =~= old(out)@ + section_lines(layout, readings, label@, 1)) by {
            assert(layout[0].name@ == "fronius_power_gen"@);
            assert(readings[0] == self.fronius_power_gen);
        }
        push_metric(out, "fronius_power_apparent", label, &self.fronius_power_apparent);
        assert(out@ =~= old(out)@ + section_lines(layout, readings, label@, 2)) by {
            assert(layout[1].name@ == "fronius_power_apparent"@);
            assert(readings[1] == self.fronius_power_apparent);
        }
        push_metric(out, "fronius_power_reactive", label, &self.fronius_power_reactive);
        assert(out@ =~= old(out)@ + section_lines(layout, readings, label@, 3)) by {
            assert(layout[2].name@ == "fronius_power_reactive"@);
            assert(readings[2] == self.fronius_power_reactive);
        }
        push_metric(out, "fronius_temp_inverter", label, &self.fronius_temp_inverter);
        assert(out@ =~= old(out)@ + section_lines(layout, readings, label@, 4)) by {
            assert(layout[3].name@ == "fronius_temp_inverter"@);
            assert(readings[3] == self.fronius_temp_inverter);
        }
    }
}

/// The power-flow summary of the site. A payload may leave out any of its
/// fields.
#[derive(Debug, PartialEq, Eq)]
pub struct FroniusPowerflowReadableBody {
    pub fronius_backup_mode: Reading,
    pub fronius_power_akku: Reading,
    pub fronius_power_grid: Reading,
    pub fronius_power_load: Reading,
    pub fronius_power_pv: Reading,
    pub fronius_autonomy: Reading,
    pub fronius_self_consumption: Reading,
}

impl FroniusPowerflowReadableBody {
    /// The fields of the section, in the order in which they are written.
    pub open spec fn layout() -> Seq<FieldSpec> {
        seq![
            FieldSpec {
                name: "fronius_backup_mode",
                vendor_key: "BackupMode",
                required: false,
            },
            FieldSpec {
                name: "fronius_power_akku",
                vendor_key: "P_Akku",
                required: false,
            },
            FieldSpec {
                name: "fronius_power_grid",
                vendor_key: "P_Grid",
                required: false,
            },
            FieldSpec {
                name: "fronius_power_load",
                vendor_key: "P_Load",
                required: false,
            },
            FieldSpec {
                name: "fronius_power_pv",
                vendor_key: "P_PV",
                required: false,
            },
            FieldSpec {
                name: "fronius_autonomy",
                vendor_key: "rel_Autonomy",
                required: false,
            },
            FieldSpec {
                name: "fronius_self_consumption",
                vendor_key: "rel_SelfConsumption",
                required: false,
            },
        ]
    }

    /// The fields of the section, in the order in which they are written.
    pub fn fields() -> (fields: Vec<FieldSpec>)
        ensures
            fields@ == Self::layout(),
    {
        let mut fields: Vec<FieldSpec> = Vec::new();
        fields.push(
            FieldSpec {
                name: "fronius_backup_mode",
                vendor_key: "BackupMode",
                required: false,
            },
        );
        fields.push(
            FieldSpec {
                name: "fronius_power_akku",
                vendor_key: "P_Akku",
                required: false,
            },
        );
        fields.push(
            FieldSpec {
                name: "fronius_power_grid",
                vendor_key: "P_Grid",
                required: false,
            },
        );
        fields.push(
            FieldSpec {
                name: "fronius_power_load",
                vendor_key: "P_Load",
                required: false,
            },
        );
        fields.push(
            FieldSpec {
                name: "fronius_power_pv",
                vendor_key: "P_PV",
                required: false,
            },
        );
        fields.push(
            FieldSpec {
                name: "fronius_autonomy",
                vendor_key: "rel_Autonomy",
                required: false,
            },
        );
        fields.push(
            FieldSpec {
                name: "fronius_self_consumption",
                vendor_key: "rel_SelfConsumption",
                required: false,
            },
        );
        assert(fields@ =~= Self::layout());
        fields
    }

    /// The readings of the record, in the order of its fields.
    pub open spec fn readings(&self) -> Seq<Reading> {
        seq![
            self.fronius_backup_mode,
            self.fronius_power_akku,
            self.fronius_power_grid,
            self.fronius_power_load,
            self.fronius_power_pv,
            self.fronius_autonomy,
            self.fronius_self_consumption,
        ]
    }

    /// The record that holds the given readings, one for each field.
    pub open spec fn from_readings(readings: Seq<Reading>) -> Self {
        FroniusPowerflowReadableBody {
            fronius_backup_mode: readings[0],
            fronius_power_akku: readings[1],
            fronius_power_grid: readings[2],
            fronius_power_load: readings[3],
            fronius_power_pv: readings[4],
            fronius_autonomy: readings[5],
            fronius_self_consumption: readings[6],
        }
    }

    /// The record that a section of a payload stands for: none where the
    /// section is missing or `null`, an error where it cannot be read.
    pub open spec fn decoded(found: Option<Json>) -> Result<
        Option<FroniusPowerflowReadableBody>,
        DecodeReason,
    > {
        match section_readings(found, Self::layout()) {
            Ok(Some(readings)) => Ok(Some(Self::from_readings(readings))),
            Ok(None) => Ok(None),
            Err(reason) => Err(reason),
        }
    }

    /// Decodes the section that a lookup in a payload has found.
    pub fn decode(found: Option<&Json>) -> (record: Result<
        Option<FroniusPowerflowReadableBody>,
        DecodeReason,
    >)
        ensures
            record == Self::decoded(found_value(found)),
    {
        let layout = Self::fields();
        match read_section(found, &layout) {
            Err(reason) => Err(reason),
            Ok(None) => Ok(None),
            Ok(Some(readings)) => {
                let mut readings = readings;
                let fronius_self_consumption = readings.pop().unwrap();
                let fronius_autonomy = readings.pop().unwrap();
                let fronius_power_pv = readings.pop().unwrap();
                let fronius_power_load = readings.pop().unwrap();
                let fronius_power_grid = readings.pop().unwrap();
                let fronius_power_akku = readings.pop().unwrap();
                let fronius_backup_mode = readings.pop().unwrap();
                Ok(
                    Some(
                        FroniusPowerflowReadableBody {
                            fronius_backup_mode,
                            fronius_power_akku,
                            fronius_power_grid,
                            fronius_power_load,
                            fronius_power_pv,
                            fronius_autonomy,
                            fronius_self_consumption,
                        },
                    ),
                )
            },
        }
    }

    /// The metric lines of the record: one line for each field that has a
    /// value, in the order of the fields.
    pub open spec fn lines(&self, label: Seq<char>) -> Seq<char> {
        section_lines(Self::layout(), self.readings(), label, Self::layout().len())
    }

    /// Writes the metric lines of the record at the end of `out`.
    pub fn push_lines(&self, out: &mut String, label: &str)
        ensures
            final(out)@ == old(out)@ + self.lines(label@),
    {
        let ghost layout = Self::layout();
        let ghost readings = self.readings();
        assert(out@ =~= old(out)@ + section_lines(layout, readings, label@, 0));
        push_metric(out, "fronius_backup_mode", label, &self.fronius_backup_mode);
        assert(out@ =~= old(out)@ + section_lines(layout, readings, label@, 1)) by {
            assert(layout[0].name@ == "fronius_backup_mode"@);
            assert(readings[0] == self.fronius_backup_mode);
        }
        push_metric(out, "fronius_power_akku", label, &self.fronius_power_akku);
        assert(out@ =~= old(out)@ + section_lines(layout, readings, label@, 2)) by {
            assert(layout[1].name@ == "fronius_power_akku"@);
            assert(readings[1] == self.fronius_power_akku);
        }
        push_metric(out, "fronius_power_grid", label, &self.fronius_power_grid);
        assert(out@ =~= old(out)@ + section_lines(layout, readings, label@, 3)) by {
            assert(layout[2].name@ == "fronius_power_grid"@);
            assert(readings[2] == self.fronius_power_grid);
        }
        push_metric(out, "fronius_power_load", label, &self.fronius_power_load);
        assert(out@ =~= old(out)@ + section_lines(layout, readings, label@, 4)) by {
            assert(layout[3].name@ == "fronius_power_load"@);
            assert(readings[3] == self.fronius_power_load);
        }
        push_metric(out, "fronius_power_pv", label, &self.fronius_power_pv);
        assert(out@ =~= old(out)@ + section_lines(layout, readings, label@, 5)) by {
            assert(layout[4].name@ == "fronius_power_pv"@);
            assert(readings[4] == self.fronius_power_pv);
        }
        push_metric(out, "fronius_autonomy", label, &self.fronius_autonomy);
        assert(out@ =~= old(out)@ + section_lines(layout, readings, label@, 6)) by {
            assert(layout[5].name@ == "fronius_autonomy"@);
            assert(readings[5] == self.fronius_autonomy);
        }
        push_metric(out, "fronius_self_consumption", label, &self.fronius_self_consumption);
        assert(out@ =~= old(out)@ + section_lines(layout, readings, label@, 7)) by {
            assert(layout[6].name@ == "fronius_self_consumption"@);
            assert(readings[6] == self.fronius_self_consumption);
        }
    }
}

/// The power-flow detail of the first inverter.
#[derive(Debug, PartialEq, Eq)]
pub struct FroniusPowerflow2ReadableBody {
    pub fronius_p: Reading,
    pub fronius_e_total: Reading,
}

impl FroniusPowerflow2ReadableBody {
    /// The fields of the section, in the order in which they are written.
    pub open spec fn layout() -> Seq<FieldSpec> {
        seq![
            FieldSpec {
                name: "fronius_p",
                vendor_key: "P",
                required: true,
            },
            FieldSpec {
                name: "fronius_e_total",
                vendor_key: "E_Total",
                required: false,
            },
        ]
    }

    /// The fields of the section, in the order in which they are written.
    pub fn fields() -> (fields: Vec<FieldSpec>)
        ensures
            fields@ == Self::layout(),
    {
        let mut fields: Vec<FieldSpec> = Vec::new();
        fields.push(
            FieldSpec {
                name: "fronius_p",
                vendor_key: "P",
                required: true,
            },
        );
        fields.push(
            FieldSpec {
                name: "fronius_e_total",
                vendor_key: "E_Total",
                required: false,
            },
        );
        assert(fields@ =~= Self::layout());
        fields
    }

    /// The readings of the record, in the order of its fields.
    pub open spec fn readings(&self) -> Seq<Reading> {
        seq![
            self.fronius_p,
            self.fronius_e_total,
        ]
    }

    /// The record that holds the given readings, one for each field.
    pub open spec fn from_readings(readings: Seq<Reading>) -> Self {
        FroniusPowerflow2ReadableBody {
            fronius_p: readings[0],
            fronius_e_total: readings[1],
        }
    }

    /// The record that a section of a payload stands for: none where the
    /// section is missing or `null`, an error where it cannot be read.
    pub open spec fn decoded(found: Option<Json>) -> Result<
        Option<FroniusPowerflow2ReadableBody>,
        DecodeReason,
    > {
        match section_readings(found, Self::layout()) {
            Ok(Some(readings)) => Ok(Some(Self::from_readings(readings))),
            Ok(None) => Ok(None),
            Err(reason) => Err(reason),
        }
    }

    /// Decodes the section that a lookup in a payload has found.
    pub fn decode(found: Option<&Json>) -> (record: Result<
        Option<FroniusPowerflow2ReadableBody>,
        DecodeReason,
    >)
        ensures
            record == Self::decoded(found_value(found)),
    {
        let layout = Self::fields();
        match read_section(found, &layout) {
            Err(reason) => Err(reason),
            Ok(None) => Ok(None),
            Ok(Some(readings)) => {
                let mut readings = readings;
                let fronius_e_total = readings.pop().unwrap();
                let fronius_p = readings.pop().unwrap();
                Ok(
                    Some(
                        FroniusPowerflow2ReadableBody {
                            fronius_p,
                            fronius_e_total,
                        },
                    ),
                )
            },
        }
    }

    /// The metric lines of the record: one line for each field that has a
    /// value, in the order of the fields.
    pub open spec fn lines(&self, label: Seq<char>) -> Seq<char> {
        section_lines(Self::layout(), self.readings(), label, Self::layout().len())
    }

    /// Writes the metric lines of the record at the end of `out`.
    pub fn push_lines(&self, out: &mut String, label: &str)
        ensures
            final(out)@ == old(out)@ + self.lines(label@),
    {
        let ghost layout = Self::layout();
        let ghost readings = self.readings();
        assert(out@ =~= old(out)@ + section_lines(layout, readings, label@, 0));
        push_metric(out, "fronius_p", label, &self.fronius_p);
        assert(out@ =~= old(out)@ + section_lines(layout, readings, label@, 1)) by {
            assert(layout[0].name@ == "fronius_p"@);
            assert(readings[0] == self.fronius_p);
        }
        push_metric(out, "fronius_e_total", label, &self.fronius_e_total);
        assert(out@ =~= old(out)@ + section_lines(layout, readings, label@, 2)) by {
            assert(layout[1].name@ == "fronius_e_total"@);
            assert(readings[1] == self.fronius_e_total);
        }
    }
}

/// The role of a device, told by whether it reports a battery.
#[derive(Debug, Clone, Copy, PartialEq, Eq, Hash, Structural)]
pub enum DeviceRole {
    /// The device reports the channels of a battery management system.
    Primary,
    /// The device reports no battery.
    Secondary,
}

impl DeviceRole {
    /// The label under which the records of the role are written.
    pub open spec fn spec_label(&self) -> Seq<char> {
        match *self {
            DeviceRole::Primary => "lefty"@,
            DeviceRole::Secondary => "righty"@,
        }
    }

    /// The label under which the records of the role are written.
    pub fn label(&self) -> (label: &'static str)
        ensures
            label@ == self.spec_label(),
    {
        match self {
            DeviceRole::Primary => "lefty",
            DeviceRole::Secondary => "righty",
        }
    }
}

/// The record of one device for one aggregation pass. The sections of the
/// cache and of the power flow are always there; the battery section is there
/// for a device that has a battery.
#[derive(Debug, PartialEq, Eq)]
pub struct Metrics {
    pub powerflow: FroniusPowerflowReadableBody,
    pub powerflow2: FroniusPowerflow2ReadableBody,
    pub cache: FroniusCacheReadableChannels,
    pub batman: Option<FroniusBatterManagementReadableChannels>,
}

impl Metrics {
    /// The role of the device: primary with a battery section, secondary
    /// without.
    pub open spec fn spec_role(&self) -> DeviceRole {
        if self.batman is Some {
            DeviceRole::Primary
        } else {
            DeviceRole::Secondary
        }
    }

    /// The role of the device.
    pub fn role(&self) -> (role: DeviceRole)
        ensures
            role == self.spec_role(),
    {
        match self.batman {
            Some(_) => DeviceRole::Primary,
            None => DeviceRole::Secondary,
        }
    }

    /// The metric text of the record: the lines of the battery section where
    /// there is one, then those of the cache, of the site's power flow and of
    /// the inverter's power flow.
    pub open spec fn lines(&self, label: Seq<char>) -> Seq<char> {
        (match self.batman {
            Some(battery) => battery.lines(label),
            None => Seq::<char>::empty(),
        }) + self.cache.lines(label) + self.powerflow.lines(label) + self.powerflow2.lines(label)
    }
}

} // verus!
