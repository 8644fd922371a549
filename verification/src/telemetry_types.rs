//! Message and enumeration types of the telemetry definitions.

use vstd::prelude::*;
use crate::enum_error::make_unknown_enum_value;
use crate::text::str_eq;

verus! {

/// Air quality metrics
#[derive(Clone, Debug, PartialEq)]
pub struct AirQualityMetrics {
    /// Concentration Units Standard PM1.0
    pub pm10_standard: Option<u32>,
    /// Concentration Units Standard PM2.5
    pub pm25_standard: Option<u32>,
    /// Concentration Units Standard PM10.0
    pub pm100_standard: Option<u32>,
    /// Concentration Units Environmental PM1.0
    pub pm10_environmental: Option<u32>,
    /// Concentration Units Environmental PM2.5
    pub pm25_environmental: Option<u32>,
    /// Concentration Units Environmental PM10.0
    pub pm100_environmental: Option<u32>,
    /// 0.3um Particle Count
    pub particles_03um: Option<u32>,
    /// 0.5um Particle Count
    pub particles_05um: Option<u32>,
    /// 1.0um Particle Count
    pub particles_10um: Option<u32>,
    /// 2.5um Particle Count
    pub particles_25um: Option<u32>,
    /// 5.0um Particle Count
    pub particles_50um: Option<u32>,
    /// 10.0um Particle Count
    pub particles_100um: Option<u32>,
    /// 10.0um Particle Count
    pub co2: Option<u32>,
}

impl AirQualityMetrics {
    /// Returns the value of `pm10_standard`, or the default value if `pm10_standard` is unset.
    pub fn pm10_standard(&self) -> (r: u32)
        ensures
            r == (match self.pm10_standard {
                Some(v) => v,
                None => 0,
            }),
    {
        match self.pm10_standard {
            Some(v) => v,
            None => 0,
        }
    }

    /// Returns the value of `pm25_standard`, or the default value if `pm25_standard` is unset.
    pub fn pm25_standard(&self) -> (r: u32)
        ensures
            r == (match self.pm25_standard {
                Some(v) => v,
                None => 0,
            }),
    {
        match self.pm25_standard {
            Some(v) => v,
            None => 0,
        }
    }

    /// Returns the value of `pm100_standard`, or the default value if `pm100_standard` is unset.
    pub fn pm100_standard(&self) -> (r: u32)
        ensures
            r == (match self.pm100_standard {
                Some(v) => v,
                None => 0,
            }),
    {
        match self.pm100_standard {
            Some(v) => v,
            None => 0,
        }
    }

    /// Returns the value of `pm10_environmental`, or the default value if `pm10_environmental` is unset.
    pub fn pm10_environmental(&self) -> (r: u32)
        ensures
            r == (match self.pm10_environmental {
                Some(v) => v,
                None => 0,
            }),
    {
        match self.pm10_environmental {
            Some(v) => v,
            None => 0,
        }
    }

    /// Returns the value of `pm25_environmental`, or the default value if `pm25_environmental` is unset.
    pub fn pm25_environmental(&self) -> (r: u32)
        ensures
            r == (match self.pm25_environmental {
                Some(v) => v,
                None => 0,
            }),
    {
        match self.pm25_environmental {
            Some(v) => v,
            None => 0,
        }
    }

    /// Returns the value of `pm100_environmental`, or the default value if `pm100_environmental` is unset.
    pub fn pm100_environmental(&self) -> (r: u32)
        ensures
            r == (match self.pm100_environmental {
                Some(v) => v,
                None => 0,
            }),
    {
        match self.pm100_environmental {
            Some(v) => v,
            None => 0,
        }
    }

    /// Returns the value of `particles_03um`, or the default value if `particles_03um` is unset.
    pub fn particles_03um(&self) -> (r: u32)
        ensures
            r == (match self.particles_03um {
                Some(v) => v,
                None => 0,
            }),
    {
        match self.particles_03um {
            Some(v) => v,
            None => 0,
        }
    }

    /// Returns the value of `particles_05um`, or the default value if `particles_05um` is unset.
    pub fn particles_05um(&self) -> (r: u32)
        ensures
            r == (match self.particles_05um {
                Some(v) => v,
                None => 0,
            }),
    {
        match self.particles_05um {
            Some(v) => v,
            None => 0,
        }
    }

    /// Returns the value of `particles_10um`, or the default value if `particles_10um` is unset.
    pub fn particles_10um(&self) -> (r: u32)
        ensures
            r == (match self.particles_10um {
                Some(v) => v,
                None => 0,
            }),
    {
        match self.particles_10um {
            Some(v) => v,
            None => 0,
        }
    }

    /// Returns the value of `particles_25um`, or the default value if `particles_25um` is unset.
    pub fn particles_25um(&self) -> (r: u32)
        ensures
            r == (match self.particles_25um {
                Some(v) => v,
                None => 0,
            }),
    {
        match self.particles_25um {
            Some(v) => v,
            None => 0,
        }
    }

    /// Returns the value of `particles_50um`, or the default value if `particles_50um` is unset.
    pub fn particles_50um(&self) -> (r: u32)
        ensures
            r == (match self.particles_50um {
                Some(v) => v,
                None => 0,
            }),
    {
        match self.particles_50um {
            Some(v) => v,
            None => 0,
        }
    }

    /// Returns the value of `particles_100um`, or the default value if `particles_100um` is unset.
    pub fn particles_100um(&self) -> (r: u32)
        ensures
            r == (match self.particles_100um {
                Some(v) => v,
                None => 0,
            }),
    {
        match self.particles_100um {
            Some(v) => v,
            None => 0,
        }
    }

    /// Returns the value of `co2`, or the default value if `co2` is unset.
    pub fn co2(&self) -> (r: u32)
        ensures
            r == (match self.co2 {
                Some(v) => v,
                None => 0,
            }),
    {
        match self.co2 {
            Some(v) => v,
            None => 0,
        }
    }
}

impl Default for AirQualityMetrics {
    /// The message with every field unset: numbers 0, flags false, strings, bytes and lists
    /// empty, and no nested message.
    fn default() -> (r: Self)
        ensures
            r.pm10_standard is None,
            r.pm25_standard is None,
            r.pm100_standard is None,
            r.pm10_environmental is None,
            r.pm25_environmental is None,
            r.pm100_environmental is None,
            r.particles_03um is None,
            r.particles_05um is None,
            r.particles_10um is None,
            r.particles_25um is None,
            r.particles_50um is None,
            r.particles_100um is None,
            r.co2 is None,
    {
        AirQualityMetrics {
            pm10_standard: None,
            pm25_standard: None,
            pm100_standard: None,
            pm10_environmental: None,
            pm25_environmental: None,
            pm100_environmental: None,
            particles_03um: None,
            particles_05um: None,
            particles_10um: None,
            particles_25um: None,
            particles_50um: None,
            particles_100um: None,
            co2: None,
        }
    }
}

/// Supported I2C Sensors for telemetry in Meshtastic
#[derive(Clone, Copy, Debug, PartialEq, Eq, Hash, PartialOrd, Ord)]
pub enum TelemetrySensorType {
    /// No external telemetry sensor explicitly set
    SensorUnset,
    /// High accuracy temperature, pressure, humidity
    Bme280,
    /// High accuracy temperature, pressure, humidity, and air resistance
    Bme680,
    /// Very high accuracy temperature
    Mcp9808,
    /// Moderate accuracy current and voltage
    Ina260,
    /// Moderate accuracy current and voltage
    Ina219,
    /// High accuracy temperature and pressure
    Bmp280,
    /// High accuracy temperature and humidity
    Shtc3,
    /// High accuracy pressure
    Lps22,
    /// 3-Axis magnetic sensor
    Qmc6310,
    /// 6-Axis inertial measurement sensor
    Qmi8658,
    /// 3-Axis magnetic sensor
    Qmc5883l,
    /// High accuracy temperature and humidity
    Sht31,
    /// PM2.5 air quality sensor
    Pmsa003i,
    /// INA3221 3 Channel Voltage / Current Sensor
    Ina3221,
    /// BMP085/BMP180 High accuracy temperature and pressure (older Version of BMP280)
    Bmp085,
    /// RCWL-9620 Doppler Radar Distance Sensor, used for water level detection
    Rcwl9620,
    /// Sensirion High accuracy temperature and humidity
    Sht4x,
    /// VEML7700 high accuracy ambient light(Lux) digital 16-bit resolution sensor.
    Veml7700,
    /// MLX90632 non-contact IR temperature sensor.
    Mlx90632,
    /// TI OPT3001 Ambient Light Sensor
    Opt3001,
    /// Lite On LTR-390UV-01 UV Light Sensor
    Ltr390uv,
    /// AMS TSL25911FN RGB Light Sensor
    Tsl25911fn,
    /// AHT10 Integrated temperature and humidity sensor
    Aht10,
    /// DFRobot Lark Weather station (temperature, humidity, pressure, wind speed and direction)
    DfrobotLark,
    /// NAU7802 Scale Chip or compatible
    Nau7802,
    /// BMP3XX High accuracy temperature and pressure
    Bmp3xx,
    /// ICM-20948 9-Axis digital motion processor
    Icm20948,
    /// MAX17048 1S lipo battery sensor (voltage, state of charge, time to go)
    Max17048,
    /// Custom I2C sensor implementation based on <https://github.com/meshtastic/i2c-sensor>
    CustomSensor,
    /// MAX30102 Pulse Oximeter and Heart-Rate Sensor
    Max30102,
    /// MLX90614 non-contact IR temperature sensor
    Mlx90614,
    /// SCD40/SCD41 CO2, humidity, temperature sensor
    Scd4x,
    /// ClimateGuard RadSens, radiation, Geiger-Muller Tube
    Radsens,
    /// High accuracy current and voltage
    Ina226,
    /// DFRobot Gravity tipping bucket rain gauge
    DfrobotRain,
}

impl TelemetrySensorType {
    /// The name of this variant in the ProtoBuf definition.
    pub open spec fn str_name(self) -> Seq<char> {
        match self {
            TelemetrySensorType::SensorUnset => "SENSOR_UNSET"@,
            TelemetrySensorType::Bme280 => "BME280"@,
            TelemetrySensorType::Bme680 => "BME680"@,
            TelemetrySensorType::Mcp9808 => "MCP9808"@,
            TelemetrySensorType::Ina260 => "INA260"@,
            TelemetrySensorType::Ina219 => "INA219"@,
            TelemetrySensorType::Bmp280 => "BMP280"@,
            TelemetrySensorType::Shtc3 => "SHTC3"@,
            TelemetrySensorType::Lps22 => "LPS22"@,
            TelemetrySensorType::Qmc6310 => "QMC6310"@,
            TelemetrySensorType::Qmi8658 => "QMI8658"@,
            TelemetrySensorType::Qmc5883l => "QMC5883L"@,
            TelemetrySensorType::Sht31 => "SHT31"@,
            TelemetrySensorType::Pmsa003i => "PMSA003I"@,
            TelemetrySensorType::Ina3221 => "INA3221"@,
            TelemetrySensorType::Bmp085 => "BMP085"@,
            TelemetrySensorType::Rcwl9620 => "RCWL9620"@,
            TelemetrySensorType::Sht4x => "SHT4X"@,
            TelemetrySensorType::Veml7700 => "VEML7700"@,
            TelemetrySensorType::Mlx90632 => "MLX90632"@,
            TelemetrySensorType::Opt3001 => "OPT3001"@,
            TelemetrySensorType::Ltr390uv => "LTR390UV"@,
            TelemetrySensorType::Tsl25911fn => "TSL25911FN"@,
            TelemetrySensorType::Aht10 => "AHT10"@,
            TelemetrySensorType::DfrobotLark => "DFROBOT_LARK"@,
            TelemetrySensorType::Nau7802 => "NAU7802"@,
            TelemetrySensorType::Bmp3xx => "BMP3XX"@,
            TelemetrySensorType::Icm20948 => "ICM20948"@,
            TelemetrySensorType::Max17048 => "MAX17048"@,
            TelemetrySensorType::CustomSensor => "CUSTOM_SENSOR"@,
            TelemetrySensorType::Max30102 => "MAX30102"@,
            TelemetrySensorType::Mlx90614 => "MLX90614"@,
            TelemetrySensorType::Scd4x => "SCD4X"@,
            TelemetrySensorType::Radsens => "RADSENS"@,
            TelemetrySensorType::Ina226 => "INA226"@,
            TelemetrySensorType::DfrobotRain => "DFROBOT_RAIN"@,
        }
    }

    /// The number of this variant in the ProtoBuf definition.
    pub open spec fn value(self) -> i32 {
        match self {
            TelemetrySensorType::SensorUnset => 0,
            TelemetrySensorType::Bme280 => 1,
            TelemetrySensorType::Bme680 => 2,
            TelemetrySensorType::Mcp9808 => 3,
            TelemetrySensorType::Ina260 => 4,
            TelemetrySensorType::Ina219 => 5,
            TelemetrySensorType::Bmp280 => 6,
            TelemetrySensorType::Shtc3 => 7,
            TelemetrySensorType::Lps22 => 8,
            TelemetrySensorType::Qmc6310 => 9,
            TelemetrySensorType::Qmi8658 => 10,
            TelemetrySensorType::Qmc5883l => 11,
            TelemetrySensorType::Sht31 => 12,
            TelemetrySensorType::Pmsa003i => 13,
            TelemetrySensorType::Ina3221 => 14,
            TelemetrySensorType::Bmp085 => 15,
            TelemetrySensorType::Rcwl9620 => 16,
            TelemetrySensorType::Sht4x => 17,
            TelemetrySensorType::Veml7700 => 18,
            TelemetrySensorType::Mlx90632 => 19,
            TelemetrySensorType::Opt3001 => 20,
            TelemetrySensorType::Ltr390uv => 21,
            TelemetrySensorType::Tsl25911fn => 22,
            TelemetrySensorType::Aht10 => 23,
            TelemetrySensorType::DfrobotLark => 24,
            TelemetrySensorType::Nau7802 => 25,
            TelemetrySensorType::Bmp3xx => 26,
            TelemetrySensorType::Icm20948 => 27,
            TelemetrySensorType::Max17048 => 28,
            TelemetrySensorType::CustomSensor => 29,
            TelemetrySensorType::Max30102 => 30,
            TelemetrySensorType::Mlx90614 => 31,
            TelemetrySensorType::Scd4x => 32,
            TelemetrySensorType::Radsens => 33,
            TelemetrySensorType::Ina226 => 34,
            TelemetrySensorType::DfrobotRain => 35,
        }
    }

    /// The variant numbered 0, which a field holds when it is not set.
    pub open spec fn default_variant() -> Self {
        TelemetrySensorType::SensorUnset
    }

    /// The variant numbered `value`, or the default variant when no variant has that number:
    /// what a message field holding `value` reads as.
    pub open spec fn from_number_or_default(value: i32) -> Self {
        match Self::with_value(value) {
            Some(e) => e,
            None => Self::default_variant(),
        }
    }

    /// The variant whose ProtoBuf name is `name`, if there is one.
    pub open spec fn named(name: Seq<char>) -> Option<Self> {
        if exists|e: Self| #[trigger] e.str_name() == name {
            Some(choose|e: Self| #[trigger] e.str_name() == name)
        } else {
            None
        }
    }

    /// The variant whose ProtoBuf number is `value`, if there is one.
    pub open spec fn with_value(value: i32) -> Option<Self> {
        if exists|e: Self| #[trigger] e.value() == value {
            Some(choose|e: Self| #[trigger] e.value() == value)
        } else {
            None
        }
    }

    spec fn name_lookup(name: Seq<char>) -> Option<Self> {
        if name == "SENSOR_UNSET"@ {
            Some(TelemetrySensorType::SensorUnset)
        } else if name == "BME280"@ {
            Some(TelemetrySensorType::Bme280)
        } else if name == "BME680"@ {
            Some(TelemetrySensorType::Bme680)
        } else if name == "MCP9808"@ {
            Some(TelemetrySensorType::Mcp9808)
        } else if name == "INA260"@ {
            Some(TelemetrySensorType::Ina260)
        } else if name == "INA219"@ {
            Some(TelemetrySensorType::Ina219)
        } else if name == "BMP280"@ {
            Some(TelemetrySensorType::Bmp280)
        } else if name == "SHTC3"@ {
            Some(TelemetrySensorType::Shtc3)
        } else if name == "LPS22"@ {
            Some(TelemetrySensorType::Lps22)
        } else if name == "QMC6310"@ {
            Some(TelemetrySensorType::Qmc6310)
        } else if name == "QMI8658"@ {
            Some(TelemetrySensorType::Qmi8658)
        } else if name == "QMC5883L"@ {
            Some(TelemetrySensorType::Qmc5883l)
        } else if name == "SHT31"@ {
            Some(TelemetrySensorType::Sht31)
        } else if name == "PMSA003I"@ {
            Some(TelemetrySensorType::Pmsa003i)
        } else if name == "INA3221"@ {
            Some(TelemetrySensorType::Ina3221)
        } else if name == "BMP085"@ {
            Some(TelemetrySensorType::Bmp085)
        } else if name == "RCWL9620"@ {
            Some(TelemetrySensorType::Rcwl9620)
        } else if name == "SHT4X"@ {
            Some(TelemetrySensorType::Sht4x)
        } else if name == "VEML7700"@ {
            Some(TelemetrySensorType::Veml7700)
        } else if name == "MLX90632"@ {
            Some(TelemetrySensorType::Mlx90632)
        } else if name == "OPT3001"@ {
            Some(TelemetrySensorType::Opt3001)
        } else if name == "LTR390UV"@ {
            Some(TelemetrySensorType::Ltr390uv)
        } else if name == "TSL25911FN"@ {
            Some(TelemetrySensorType::Tsl25911fn)
        } else if name == "AHT10"@ {
            Some(TelemetrySensorType::Aht10)
        } else if name == "DFROBOT_LARK"@ {
            Some(TelemetrySensorType::DfrobotLark)
        } else if name == "NAU7802"@ {
            Some(TelemetrySensorType::Nau7802)
        } else if name == "BMP3XX"@ {
            Some(TelemetrySensorType::Bmp3xx)
        } else if name == "ICM20948"@ {
            Some(TelemetrySensorType::Icm20948)
        } else if name == "MAX17048"@ {
            Some(TelemetrySensorType::Max17048)
        } else if name == "CUSTOM_SENSOR"@ {
            Some(TelemetrySensorType::CustomSensor)
        } else if name == "MAX30102"@ {
            Some(TelemetrySensorType::Max30102)
        } else if name == "MLX90614"@ {
            Some(TelemetrySensorType::Mlx90614)
        } else if name == "SCD4X"@ {
            Some(TelemetrySensorType::Scd4x)
        } else if name == "RADSENS"@ {
            Some(TelemetrySensorType::Radsens)
        } else if name == "INA226"@ {
            Some(TelemetrySensorType::Ina226)
        } else if name == "DFROBOT_RAIN"@ {
            Some(TelemetrySensorType::DfrobotRain)
        } else {
            None
        }
    }

    spec fn value_lookup(value: i32) -> Option<Self> {
        if value == 0 {
            Some(TelemetrySensorType::SensorUnset)
        } else if value == 1 {
            Some(TelemetrySensorType::Bme280)
        } else if value == 2 {
            Some(TelemetrySensorType::Bme680)
        } else if value == 3 {
            Some(TelemetrySensorType::Mcp9808)
        } else if value == 4 {
            Some(TelemetrySensorType::Ina260)
        } else if value == 5 {
            Some(TelemetrySensorType::Ina219)
        } else if value == 6 {
            Some(TelemetrySensorType::Bmp280)
        } else if value == 7 {
            Some(TelemetrySensorType::Shtc3)
        } else if value == 8 {
            Some(TelemetrySensorType::Lps22)
        } else if value == 9 {
            Some(TelemetrySensorType::Qmc6310)
        } else if value == 10 {
            Some(TelemetrySensorType::Qmi8658)
        } else if value == 11 {
            Some(TelemetrySensorType::Qmc5883l)
        } else if value == 12 {
            Some(TelemetrySensorType::Sht31)
        } else if value == 13 {
            Some(TelemetrySensorType::Pmsa003i)
        } else if value == 14 {
            Some(TelemetrySensorType::Ina3221)
        } else if value == 15 {
            Some(TelemetrySensorType::Bmp085)
        } else if value == 16 {
            Some(TelemetrySensorType::Rcwl9620)
        } else if value == 17 {
            Some(TelemetrySensorType::Sht4x)
        } else if value == 18 {
            Some(TelemetrySensorType::Veml7700)
        } else if value == 19 {
            Some(TelemetrySensorType::Mlx90632)
        } else if value == 20 {
            Some(TelemetrySensorType::Opt3001)
        } else if value == 21 {
            Some(TelemetrySensorType::Ltr390uv)
        } else if value == 22 {
            Some(TelemetrySensorType::Tsl25911fn)
        } else if value == 23 {
            Some(TelemetrySensorType::Aht10)
        } else if value == 24 {
            Some(TelemetrySensorType::DfrobotLark)
        } else if value == 25 {
            Some(TelemetrySensorType::Nau7802)
        } else if value == 26 {
            Some(TelemetrySensorType::Bmp3xx)
        } else if value == 27 {
            Some(TelemetrySensorType::Icm20948)
        } else if value == 28 {
            Some(TelemetrySensorType::Max17048)
        } else if value == 29 {
            Some(TelemetrySensorType::CustomSensor)
        } else if value == 30 {
            Some(TelemetrySensorType::Max30102)
        } else if value == 31 {
            Some(TelemetrySensorType::Mlx90614)
        } else if value == 32 {
            Some(TelemetrySensorType::Scd4x)
        } else if value == 33 {
            Some(TelemetrySensorType::Radsens)
        } else if value == 34 {
            Some(TelemetrySensorType::Ina226)
        } else if value == 35 {
            Some(TelemetrySensorType::DfrobotRain)
        } else {
            None
        }
    }

    proof fn lemma_lookups()
        ensures
            forall|e: Self| #[trigger] Self::name_lookup(e.str_name()) == Some(e),
            forall|e: Self| #[trigger] Self::value_lookup(e.value()) == Some(e),
    {
        reveal_strlit("SENSOR_UNSET");
        assert("SENSOR_UNSET"@.len() == 12);
        assert("SENSOR_UNSET"@[0] == 'S');
        reveal_strlit("BME280");
        assert("BME280"@.len() == 6);
        assert("BME280"@[0] == 'B');
        assert("BME280"@[2] == 'E');
        assert("BME280"@[3] == '2');
        reveal_strlit("BME680");
        assert("BME680"@.len() == 6);
        assert("BME680"@[0] == 'B');
        assert("BME680"@[2] == 'E');
        assert("BME680"@[3] == '6');
        reveal_strlit("MCP9808");
        assert("MCP9808"@.len() == 7);
        assert("MCP9808"@[0] == 'M');
        reveal_strlit("INA260");
        assert("INA260"@.len() == 6);
        assert("INA260"@[0] == 'I');
        assert("INA260"@[4] == '6');
        reveal_strlit("INA219");
        assert("INA219"@.len() == 6);
        assert("INA219"@[0] == 'I');
        assert("INA219"@[4] == '1');
        reveal_strlit("BMP280");
        assert("BMP280"@.len() == 6);
        assert("BMP280"@[0] == 'B');
        assert("BMP280"@[2] == 'P');
        assert("BMP280"@[3] == '2');
        reveal_strlit("SHTC3");
        assert("SHTC3"@.len() == 5);
        assert("SHTC3"@[0] == 'S');
        assert("SHTC3"@[1] == 'H');
        assert("SHTC3"@[3] == 'C');
        reveal_strlit("LPS22");
        assert("LPS22"@.len() == 5);
        assert("LPS22"@[0] == 'L');
        reveal_strlit("QMC6310");
        assert("QMC6310"@.len() == 7);
        assert("QMC6310"@[0] == 'Q');
        assert("QMC6310"@[2] == 'C');
        reveal_strlit("QMI8658");
        assert("QMI8658"@.len() == 7);
        assert("QMI8658"@[0] == 'Q');
        assert("QMI8658"@[2] == 'I');
        reveal_strlit("QMC5883L");
        assert("QMC5883L"@.len() == 8);
        assert("QMC5883L"@[0] == 'Q');
        reveal_strlit("SHT31");
        assert("SHT31"@.len() == 5);
        assert("SHT31"@[0] == 'S');
        assert("SHT31"@[1] == 'H');
        assert("SHT31"@[3] == '3');
        reveal_strlit("PMSA003I");
        assert("PMSA003I"@.len() == 8);
        assert("PMSA003I"@[0] == 'P');
        reveal_strlit("INA3221");
        assert("INA3221"@.len() == 7);
        assert("INA3221"@[0] == 'I');
        reveal_strlit("BMP085");
        assert("BMP085"@.len() == 6);
        assert("BMP085"@[0] == 'B');
        assert("BMP085"@[2] == 'P');
        assert("BMP085"@[3] == '0');
        reveal_strlit("RCWL9620");
        assert("RCWL9620"@.len() == 8);
        assert("RCWL9620"@[0] == 'R');
        reveal_strlit("SHT4X");
        assert("SHT4X"@.len() == 5);
        assert("SHT4X"@[0] == 'S');
        assert("SHT4X"@[1] == 'H');
        assert("SHT4X"@[3] == '4');
        reveal_strlit("VEML7700");
        assert("VEML7700"@.len() == 8);
        assert("VEML7700"@[0] == 'V');
        reveal_strlit("MLX90632");
        assert("MLX90632"@.len() == 8);
        assert("MLX90632"@[0] == 'M');
        assert("MLX90632"@[1] == 'L');
        assert("MLX90632"@[6] == '3');
        reveal_strlit("OPT3001");
        assert("OPT3001"@.len() == 7);
        assert("OPT3001"@[0] == 'O');
        reveal_strlit("LTR390UV");
        assert("LTR390UV"@.len() == 8);
        assert("LTR390UV"@[0] == 'L');
        reveal_strlit("TSL25911FN");
        assert("TSL25911FN"@.len() == 10);
        reveal_strlit("AHT10");
        assert("AHT10"@.len() == 5);
        assert("AHT10"@[0] == 'A');
        reveal_strlit("DFROBOT_LARK");
        assert("DFROBOT_LARK"@.len() == 12);
        assert("DFROBOT_LARK"@[0] == 'D');
        assert("DFROBOT_LARK"@[8] == 'L');
        reveal_strlit("NAU7802");
        assert("NAU7802"@.len() == 7);
        assert("NAU7802"@[0] == 'N');
        reveal_strlit("BMP3XX");
        assert("BMP3XX"@.len() == 6);
        assert("BMP3XX"@[0] == 'B');
        assert("BMP3XX"@[2] == 'P');
        assert("BMP3XX"@[3] == '3');
        reveal_strlit("ICM20948");
        assert("ICM20948"@.len() == 8);
        assert("ICM20948"@[0] == 'I');
        reveal_strlit("MAX17048");
        assert("MAX17048"@.len() == 8);
        assert("MAX17048"@[0] == 'M');
        assert("MAX17048"@[1] == 'A');
        assert("MAX17048"@[3] == '1');
        reveal_strlit("CUSTOM_SENSOR");
        assert("CUSTOM_SENSOR"@.len() == 13);
        reveal_strlit("MAX30102");
        assert("MAX30102"@.len() == 8);
        assert("MAX30102"@[0] == 'M');
        assert("MAX30102"@[1] == 'A');
        assert("MAX30102"@[3] == '3');
        reveal_strlit("MLX90614");
        assert("MLX90614"@.len() == 8);
        assert("MLX90614"@[0] == 'M');
        assert("MLX90614"@[1] == 'L');
        assert("MLX90614"@[6] == '1');
        reveal_strlit("SCD4X");
        assert("SCD4X"@.len() == 5);
        assert("SCD4X"@[0] == 'S');
        assert("SCD4X"@[1] == 'C');
        reveal_strlit("RADSENS");
        assert("RADSENS"@.len() == 7);
        assert("RADSENS"@[0] == 'R');
        reveal_strlit("INA226");
        assert("INA226"@.len() == 6);
        assert("INA226"@[0] == 'I');
        assert("INA226"@[4] == '2');
        reveal_strlit("DFROBOT_RAIN");
        assert("DFROBOT_RAIN"@.len() == 12);
        assert("DFROBOT_RAIN"@[0] == 'D');
        assert("DFROBOT_RAIN"@[8] == 'R');
    }

    /// Distinct variants have distinct ProtoBuf names and distinct ProtoBuf numbers.
    pub proof fn lemma_injective(a: Self, b: Self)
        ensures
            a.str_name() == b.str_name() ==> a == b,
            a.value() == b.value() ==> a == b,
    {
        Self::lemma_lookups();
        assert(Self::name_lookup(a.str_name()) == Some(a));
        assert(Self::name_lookup(b.str_name()) == Some(b));
        assert(Self::value_lookup(a.value()) == Some(a));
        assert(Self::value_lookup(b.value()) == Some(b));
    }

    /// A name denotes a variant exactly when it is that variant's ProtoBuf name:
    /// `from_str_name` undoes `as_str_name`, and accepts nothing else.
    pub proof fn lemma_named(name: Seq<char>, e: Self)
        ensures
            Self::named(name) == Some(e) <==> e.str_name() == name,
    {
        if e.str_name() == name {
            let x = choose|x: Self| #[trigger] x.str_name() == name;
            Self::lemma_injective(x, e);
        }
    }

    /// A number denotes a variant exactly when it is that variant's ProtoBuf number:
    /// `from_i32` undoes the conversion to `i32`, and accepts nothing else.
    pub proof fn lemma_with_value(value: i32, e: Self)
        ensures
            Self::with_value(value) == Some(e) <==> e.value() == value,
    {
        if e.value() == value {
            let x = choose|x: Self| #[trigger] x.value() == value;
            Self::lemma_injective(x, e);
        }
    }

    /// What a field holding `value` reads as: the variant numbered `value` when some variant
    /// has that number, and otherwise the variant numbered 0.
    pub proof fn lemma_number_or_default(value: i32)
        ensures
            (exists|e: Self| #[trigger] e.value() == value) ==> Self::from_number_or_default(value).value() == value,
            (forall|e: Self| #[trigger] e.value() != value) ==> Self::from_number_or_default(value).value() == 0,
            (forall|e: Self| #[trigger] e.value() != value) ==> Self::from_number_or_default(value) == Self::default_variant(),
            Self::default_variant().value() == 0,
    {
        if exists|e: Self| #[trigger] e.value() == value {
            let e = choose|e: Self| #[trigger] e.value() == value;
            Self::lemma_with_value(value, e);
        }
    }

    /// `try_from` accepts exactly the numbers that variants have and gives back the variant with
    /// that number; every other number it rejects with the error that records that number.
    pub proof fn lemma_try_from(value: i32, e: Self)
        ensures
            (<Self as vstd::std_specs::convert::TryFromSpec<i32>>::try_from_spec(value) == Ok::<Self, prost::UnknownEnumValue>(e)) <==> e.value() == value,
            (forall|x: Self| #[trigger] x.value() != value) ==> <Self as vstd::std_specs::convert::TryFromSpec<i32>>::try_from_spec(value) == Err::<Self, prost::UnknownEnumValue>(crate::enum_error::unknown_enum_value(value)),
            (exists|x: Self| #[trigger] x.value() == value) ==> <Self as vstd::std_specs::convert::TryFromSpec<i32>>::try_from_spec(value) is Ok,
    {
        Self::lemma_with_value(value, e);
        if exists|x: Self| #[trigger] x.value() == value {
            let x = choose|x: Self| #[trigger] x.value() == value;
            Self::lemma_with_value(value, x);
        }
    }

    /// Reading back the number of a variant gives that variant: a field set to `e` reads as `e`.
    pub proof fn lemma_read_after_write(e: Self)
        ensures
            Self::from_number_or_default(e.value()) == e,
    {
        Self::lemma_with_value(e.value(), e);
    }

    /// String value of the enum field names used in the ProtoBuf definition.
    ///
    /// The values are not transformed in any way and thus are considered stable
    /// (if the ProtoBuf definition does not change) and safe for programmatic use.
    pub fn as_str_name(&self) -> (name: &'static str)
        ensures
            name@ == self.str_name(),
    {
        match self {
            TelemetrySensorType::SensorUnset => "SENSOR_UNSET",
            TelemetrySensorType::Bme280 => "BME280",
            TelemetrySensorType::Bme680 => "BME680",
            TelemetrySensorType::Mcp9808 => "MCP9808",
            TelemetrySensorType::Ina260 => "INA260",
            TelemetrySensorType::Ina219 => "INA219",
            TelemetrySensorType::Bmp280 => "BMP280",
            TelemetrySensorType::Shtc3 => "SHTC3",
            TelemetrySensorType::Lps22 => "LPS22",
            TelemetrySensorType::Qmc6310 => "QMC6310",
            TelemetrySensorType::Qmi8658 => "QMI8658",
            TelemetrySensorType::Qmc5883l => "QMC5883L",
            TelemetrySensorType::Sht31 => "SHT31",
            TelemetrySensorType::Pmsa003i => "PMSA003I",
            TelemetrySensorType::Ina3221 => "INA3221",
            TelemetrySensorType::Bmp085 => "BMP085",
            TelemetrySensorType::Rcwl9620 => "RCWL9620",
            TelemetrySensorType::Sht4x => "SHT4X",
            TelemetrySensorType::Veml7700 => "VEML7700",
            TelemetrySensorType::Mlx90632 => "MLX90632",
            TelemetrySensorType::Opt3001 => "OPT3001",
            TelemetrySensorType::Ltr390uv => "LTR390UV",
            TelemetrySensorType::Tsl25911fn => "TSL25911FN",
            TelemetrySensorType::Aht10 => "AHT10",
            TelemetrySensorType::DfrobotLark => "DFROBOT_LARK",
            TelemetrySensorType::Nau7802 => "NAU7802",
            TelemetrySensorType::Bmp3xx => "BMP3XX",
            TelemetrySensorType::Icm20948 => "ICM20948",
            TelemetrySensorType::Max17048 => "MAX17048",
            TelemetrySensorType::CustomSensor => "CUSTOM_SENSOR",
            TelemetrySensorType::Max30102 => "MAX30102",
            TelemetrySensorType::Mlx90614 => "MLX90614",
            TelemetrySensorType::Scd4x => "SCD4X",
            TelemetrySensorType::Radsens => "RADSENS",
            TelemetrySensorType::Ina226 => "INA226",
            TelemetrySensorType::DfrobotRain => "DFROBOT_RAIN",
        }
    }

    /// Creates an enum from field names used in the ProtoBuf definition.
    pub fn from_str_name(value: &str) -> (r: Option<Self>)
        ensures
            r == Self::named(value@),
    {
        if str_eq(value, "SENSOR_UNSET") {
            proof {
                Self::lemma_named(value@, TelemetrySensorType::SensorUnset);
            }
            return Some(TelemetrySensorType::SensorUnset);
        }
        if str_eq(value, "BME280") {
            proof {
                Self::lemma_named(value@, TelemetrySensorType::Bme280);
            }
            return Some(TelemetrySensorType::Bme280);
        }
        if str_eq(value, "BME680") {
            proof {
                Self::lemma_named(value@, TelemetrySensorType::Bme680);
            }
            return Some(TelemetrySensorType::Bme680);
        }
        if str_eq(value, "MCP9808") {
            proof {
                Self::lemma_named(value@, TelemetrySensorType::Mcp9808);
            }
            return Some(TelemetrySensorType::Mcp9808);
        }
        if str_eq(value, "INA260") {
            proof {
                Self::lemma_named(value@, TelemetrySensorType::Ina260);
            }
            return Some(TelemetrySensorType::Ina260);
        }
        if str_eq(value, "INA219") {
            proof {
                Self::lemma_named(value@, TelemetrySensorType::Ina219);
            }
            return Some(TelemetrySensorType::Ina219);
        }
        if str_eq(value, "BMP280") {
            proof {
                Self::lemma_named(value@, TelemetrySensorType::Bmp280);
            }
            return Some(TelemetrySensorType::Bmp280);
        }
        if str_eq(value, "SHTC3") {
            proof {
                Self::lemma_named(value@, TelemetrySensorType::Shtc3);
            }
            return Some(TelemetrySensorType::Shtc3);
        }
        if str_eq(value, "LPS22") {
            proof {
                Self::lemma_named(value@, TelemetrySensorType::Lps22);
            }
            return Some(TelemetrySensorType::Lps22);
        }
        if str_eq(value, "QMC6310") {
            proof {
                Self::lemma_named(value@, TelemetrySensorType::Qmc6310);
            }
            return Some(TelemetrySensorType::Qmc6310);
        }
        if str_eq(value, "QMI8658") {
            proof {
                Self::lemma_named(value@, TelemetrySensorType::Qmi8658);
            }
            return Some(TelemetrySensorType::Qmi8658);
        }
        if str_eq(value, "QMC5883L") {
            proof {
                Self::lemma_named(value@, TelemetrySensorType::Qmc5883l);
            }
            return Some(TelemetrySensorType::Qmc5883l);
        }
        if str_eq(value, "SHT31") {
            proof {
                Self::lemma_named(value@, TelemetrySensorType::Sht31);
            }
            return Some(TelemetrySensorType::Sht31);
        }
        if str_eq(value, "PMSA003I") {
            proof {
                Self::lemma_named(value@, TelemetrySensorType::Pmsa003i);
            }
            return Some(TelemetrySensorType::Pmsa003i);
        }
        if str_eq(value, "INA3221") {
            proof {
                Self::lemma_named(value@, TelemetrySensorType::Ina3221);
            }
            return Some(TelemetrySensorType::Ina3221);
        }
        if str_eq(value, "BMP085") {
            proof {
                Self::lemma_named(value@, TelemetrySensorType::Bmp085);
            }
            return Some(TelemetrySensorType::Bmp085);
        }
        if str_eq(value, "RCWL9620") {
            proof {
                Self::lemma_named(value@, TelemetrySensorType::Rcwl9620);
            }
            return Some(TelemetrySensorType::Rcwl9620);
        }
        if str_eq(value, "SHT4X") {
            proof {
                Self::lemma_named(value@, TelemetrySensorType::Sht4x);
            }
            return Some(TelemetrySensorType::Sht4x);
        }
        if str_eq(value, "VEML7700") {
            proof {
                Self::lemma_named(value@, TelemetrySensorType::Veml7700);
            }
            return Some(TelemetrySensorType::Veml7700);
        }
        if str_eq(value, "MLX90632") {
            proof {
                Self::lemma_named(value@, TelemetrySensorType::Mlx90632);
            }
            return Some(TelemetrySensorType::Mlx90632);
        }
        if str_eq(value, "OPT3001") {
            proof {
                Self::lemma_named(value@, TelemetrySensorType::Opt3001);
            }
            return Some(TelemetrySensorType::Opt3001);
        }
        if str_eq(value, "LTR390UV") {
            proof {
                Self::lemma_named(value@, TelemetrySensorType::Ltr390uv);
            }
            return Some(TelemetrySensorType::Ltr390uv);
        }
        if str_eq(value, "TSL25911FN") {
            proof {
                Self::lemma_named(value@, TelemetrySensorType::Tsl25911fn);
            }
            return Some(TelemetrySensorType::Tsl25911fn);
        }
        if str_eq(value, "AHT10") {
            proof {
                Self::lemma_named(value@, TelemetrySensorType::Aht10);
            }
            return Some(TelemetrySensorType::Aht10);
        }
        if str_eq(value, "DFROBOT_LARK") {
            proof {
                Self::lemma_named(value@, TelemetrySensorType::DfrobotLark);
            }
            return Some(TelemetrySensorType::DfrobotLark);
        }
        if str_eq(value, "NAU7802") {
            proof {
                Self::lemma_named(value@, TelemetrySensorType::Nau7802);
            }
            return Some(TelemetrySensorType::Nau7802);
        }
        if str_eq(value, "BMP3XX") {
            proof {
                Self::lemma_named(value@, TelemetrySensorType::Bmp3xx);
            }
            return Some(TelemetrySensorType::Bmp3xx);
        }
        if str_eq(value, "ICM20948") {
            proof {
                Self::lemma_named(value@, TelemetrySensorType::Icm20948);
            }
            return Some(TelemetrySensorType::Icm20948);
        }
        if str_eq(value, "MAX17048") {
            proof {
                Self::lemma_named(value@, TelemetrySensorType::Max17048);
            }
            return Some(TelemetrySensorType::Max17048);
        }
        if str_eq(value, "CUSTOM_SENSOR") {
            proof {
                Self::lemma_named(value@, TelemetrySensorType::CustomSensor);
            }
            return Some(TelemetrySensorType::CustomSensor);
        }
        if str_eq(value, "MAX30102") {
            proof {
                Self::lemma_named(value@, TelemetrySensorType::Max30102);
            }
            return Some(TelemetrySensorType::Max30102);
        }
        if str_eq(value, "MLX90614") {
            proof {
                Self::lemma_named(value@, TelemetrySensorType::Mlx90614);
            }
            return Some(TelemetrySensorType::Mlx90614);
        }
        if str_eq(value, "SCD4X") {
            proof {
                Self::lemma_named(value@, TelemetrySensorType::Scd4x);
            }
            return Some(TelemetrySensorType::Scd4x);
        }
        if str_eq(value, "RADSENS") {
            proof {
                Self::lemma_named(value@, TelemetrySensorType::Radsens);
            }
            return Some(TelemetrySensorType::Radsens);
        }
        if str_eq(value, "INA226") {
            proof {
                Self::lemma_named(value@, TelemetrySensorType::Ina226);
            }
            return Some(TelemetrySensorType::Ina226);
        }
        if str_eq(value, "DFROBOT_RAIN") {
            proof {
                Self::lemma_named(value@, TelemetrySensorType::DfrobotRain);
            }
            return Some(TelemetrySensorType::DfrobotRain);
        }
        None
    }

    /// Returns `true` if `value` is a variant of `TelemetrySensorType`.
    pub fn is_valid(value: i32) -> (r: bool)
        ensures
            r == (Self::with_value(value) is Some),
    {
        Self::from_i32(value).is_some()
    }

    /// Converts an `i32` to a `TelemetrySensorType`, or `None` if `value` is not a valid variant.
    pub fn from_i32(value: i32) -> (r: Option<Self>)
        ensures
            r == Self::with_value(value),
    {
        if value == 0 {
            proof {
                Self::lemma_with_value(value, TelemetrySensorType::SensorUnset);
            }
            return Some(TelemetrySensorType::SensorUnset);
        }
        if value == 1 {
            proof {
                Self::lemma_with_value(value, TelemetrySensorType::Bme280);
            }
            return Some(TelemetrySensorType::Bme280);
        }
        if value == 2 {
            proof {
                Self::lemma_with_value(value, TelemetrySensorType::Bme680);
            }
            return Some(TelemetrySensorType::Bme680);
        }
        if value == 3 {
            proof {
                Self::lemma_with_value(value, TelemetrySensorType::Mcp9808);
            }
            return Some(TelemetrySensorType::Mcp9808);
        }
        if value == 4 {
            proof {
                Self::lemma_with_value(value, TelemetrySensorType::Ina260);
            }
            return Some(TelemetrySensorType::Ina260);
        }
        if value == 5 {
            proof {
                Self::lemma_with_value(value, TelemetrySensorType::Ina219);
            }
            return Some(TelemetrySensorType::Ina219);
        }
        if value == 6 {
            proof {
                Self::lemma_with_value(value, TelemetrySensorType::Bmp280);
            }
            return Some(TelemetrySensorType::Bmp280);
        }
        if value == 7 {
            proof {
                Self::lemma_with_value(value, TelemetrySensorType::Shtc3);
            }
            return Some(TelemetrySensorType::Shtc3);
        }
        if value == 8 {
            proof {
                Self::lemma_with_value(value, TelemetrySensorType::Lps22);
            }
            return Some(TelemetrySensorType::Lps22);
        }
        if value == 9 {
            proof {
                Self::lemma_with_value(value, TelemetrySensorType::Qmc6310);
            }
            return Some(TelemetrySensorType::Qmc6310);
        }
        if value == 10 {
            proof {
                Self::lemma_with_value(value, TelemetrySensorType::Qmi8658);
            }
            return Some(TelemetrySensorType::Qmi8658);
        }
        if value == 11 {
            proof {
                Self::lemma_with_value(value, TelemetrySensorType::Qmc5883l);
            }
            return Some(TelemetrySensorType::Qmc5883l);
        }
        if value == 12 {
            proof {
                Self::lemma_with_value(value, TelemetrySensorType::Sht31);
            }
            return Some(TelemetrySensorType::Sht31);
        }
        if value == 13 {
            proof {
                Self::lemma_with_value(value, TelemetrySensorType::Pmsa003i);
            }
            return Some(TelemetrySensorType::Pmsa003i);
        }
        if value == 14 {
            proof {
                Self::lemma_with_value(value, TelemetrySensorType::Ina3221);
            }
            return Some(TelemetrySensorType::Ina3221);
        }
        if value == 15 {
            proof {
                Self::lemma_with_value(value, TelemetrySensorType::Bmp085);
            }
            return Some(TelemetrySensorType::Bmp085);
        }
        if value == 16 {
            proof {
                Self::lemma_with_value(value, TelemetrySensorType::Rcwl9620);
            }
            return Some(TelemetrySensorType::Rcwl9620);
        }
        if value == 17 {
            proof {
                Self::lemma_with_value(value, TelemetrySensorType::Sht4x);
            }
            return Some(TelemetrySensorType::Sht4x);
        }
        if value == 18 {
            proof {
                Self::lemma_with_value(value, TelemetrySensorType::Veml7700);
            }
            return Some(TelemetrySensorType::Veml7700);
        }
        if value == 19 {
            proof {
                Self::lemma_with_value(value, TelemetrySensorType::Mlx90632);
            }
            return Some(TelemetrySensorType::Mlx90632);
        }
        if value == 20 {
            proof {
                Self::lemma_with_value(value, TelemetrySensorType::Opt3001);
            }
            return Some(TelemetrySensorType::Opt3001);
        }
        if value == 21 {
            proof {
                Self::lemma_with_value(value, TelemetrySensorType::Ltr390uv);
            }
            return Some(TelemetrySensorType::Ltr390uv);
        }
        if value == 22 {
            proof {
                Self::lemma_with_value(value, TelemetrySensorType::Tsl25911fn);
            }
            return Some(TelemetrySensorType::Tsl25911fn);
        }
        if value == 23 {
            proof {
                Self::lemma_with_value(value, TelemetrySensorType::Aht10);
            }
            return Some(TelemetrySensorType::Aht10);
        }
        if value == 24 {
            proof {
                Self::lemma_with_value(value, TelemetrySensorType::DfrobotLark);
            }
            return Some(TelemetrySensorType::DfrobotLark);
        }
        if value == 25 {
            proof {
                Self::lemma_with_value(value, TelemetrySensorType::Nau7802);
            }
            return Some(TelemetrySensorType::Nau7802);
        }
        if value == 26 {
            proof {
                Self::lemma_with_value(value, TelemetrySensorType::Bmp3xx);
            }
            return Some(TelemetrySensorType::Bmp3xx);
        }
        if value == 27 {
            proof {
                Self::lemma_with_value(value, TelemetrySensorType::Icm20948);
            }
            return Some(TelemetrySensorType::Icm20948);
        }
        if value == 28 {
            proof {
                Self::lemma_with_value(value, TelemetrySensorType::Max17048);
            }
            return Some(TelemetrySensorType::Max17048);
        }
        if value == 29 {
            proof {
                Self::lemma_with_value(value, TelemetrySensorType::CustomSensor);
            }
            return Some(TelemetrySensorType::CustomSensor);
        }
        if value == 30 {
            proof {
                Self::lemma_with_value(value, TelemetrySensorType::Max30102);
            }
            return Some(TelemetrySensorType::Max30102);
        }
        if value == 31 {
            proof {
                Self::lemma_with_value(value, TelemetrySensorType::Mlx90614);
            }
            return Some(TelemetrySensorType::Mlx90614);
        }
        if value == 32 {
            proof {
                Self::lemma_with_value(value, TelemetrySensorType::Scd4x);
            }
            return Some(TelemetrySensorType::Scd4x);
        }
        if value == 33 {
            proof {
                Self::lemma_with_value(value, TelemetrySensorType::Radsens);
            }
            return Some(TelemetrySensorType::Radsens);
        }
        if value == 34 {
            proof {
                Self::lemma_with_value(value, TelemetrySensorType::Ina226);
            }
            return Some(TelemetrySensorType::Ina226);
        }
        if value == 35 {
            proof {
                Self::lemma_with_value(value, TelemetrySensorType::DfrobotRain);
            }
            return Some(TelemetrySensorType::DfrobotRain);
        }
        None
    }
}

impl Default for TelemetrySensorType {
    /// The variant numbered 0, the default value of the field in ProtoBuf.
    fn default() -> (r: Self)
        ensures
            r == Self::default_variant(),
            r.value() == 0,
    {
        TelemetrySensorType::SensorUnset
    }
}

impl From<TelemetrySensorType> for i32 {
    fn from(value: TelemetrySensorType) -> (r: i32) {
        match value {
            TelemetrySensorType::SensorUnset => 0,
            TelemetrySensorType::Bme280 => 1,
            TelemetrySensorType::Bme680 => 2,
            TelemetrySensorType::Mcp9808 => 3,
            TelemetrySensorType::Ina260 => 4,
            TelemetrySensorType::Ina219 => 5,
            TelemetrySensorType::Bmp280 => 6,
            TelemetrySensorType::Shtc3 => 7,
            TelemetrySensorType::Lps22 => 8,
            TelemetrySensorType::Qmc6310 => 9,
            TelemetrySensorType::Qmi8658 => 10,
            TelemetrySensorType::Qmc5883l => 11,
            TelemetrySensorType::Sht31 => 12,
            TelemetrySensorType::Pmsa003i => 13,
            TelemetrySensorType::Ina3221 => 14,
            TelemetrySensorType::Bmp085 => 15,
            TelemetrySensorType::Rcwl9620 => 16,
            TelemetrySensorType::Sht4x => 17,
            TelemetrySensorType::Veml7700 => 18,
            TelemetrySensorType::Mlx90632 => 19,
            TelemetrySensorType::Opt3001 => 20,
            TelemetrySensorType::Ltr390uv => 21,
            TelemetrySensorType::Tsl25911fn => 22,
            TelemetrySensorType::Aht10 => 23,
            TelemetrySensorType::DfrobotLark => 24,
            TelemetrySensorType::Nau7802 => 25,
            TelemetrySensorType::Bmp3xx => 26,
            TelemetrySensorType::Icm20948 => 27,
            TelemetrySensorType::Max17048 => 28,
            TelemetrySensorType::CustomSensor => 29,
            TelemetrySensorType::Max30102 => 30,
            TelemetrySensorType::Mlx90614 => 31,
            TelemetrySensorType::Scd4x => 32,
            TelemetrySensorType::Radsens => 33,
            TelemetrySensorType::Ina226 => 34,
            TelemetrySensorType::DfrobotRain => 35,
        }
    }
}

impl TryFrom<i32> for TelemetrySensorType {
    type Error = prost::UnknownEnumValue;

    fn try_from(value: i32) -> (r: Result<TelemetrySensorType, prost::UnknownEnumValue>)
        ensures
            r matches Ok(e) ==> e.value() == value,
            (exists|e: TelemetrySensorType| #[trigger] e.value() == value) ==> r is Ok,
            r is Err ==> r == Err::<TelemetrySensorType, prost::UnknownEnumValue>(crate::enum_error::unknown_enum_value(value)),
    {
        proof {
            if exists|e: TelemetrySensorType| #[trigger] e.value() == value {
                let e = choose|e: TelemetrySensorType| #[trigger] e.value() == value;
                TelemetrySensorType::lemma_with_value(value, e);
            }
        }
        match TelemetrySensorType::from_i32(value) {
            Some(e) => Ok(e),
            None => Err(make_unknown_enum_value(value)),
        }
    }
}

impl vstd::std_specs::convert::TryFromSpecImpl<i32> for TelemetrySensorType {
    open spec fn obeys_try_from_spec() -> bool {
        true
    }

    open spec fn try_from_spec(value: i32) -> Result<TelemetrySensorType, prost::UnknownEnumValue> {
        match TelemetrySensorType::with_value(value) {
            Some(e) => Ok(e),
            None => Err(crate::enum_error::unknown_enum_value(value)),
        }
    }
}

impl vstd::std_specs::convert::FromSpecImpl<TelemetrySensorType> for i32 {
    open spec fn obeys_from_spec() -> bool {
        true
    }

    open spec fn from_spec(value: TelemetrySensorType) -> i32 {
        value.value()
    }
}

} // verus!
