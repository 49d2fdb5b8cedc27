//! The known record kinds of the binary activity files, and the field
//! names each kind carries: the mapping a record-to-measurement step can
//! filter fields with.
use vstd::prelude::*;

verus! {

/// The exact contents of `get_activity_map`.
pub open spec fn activity_map_spec() -> Seq<(Seq<char>, Seq<Seq<char>>)> {
    seq![
        ("user_profile"@, seq!["unknown_field_43"@, "hr_setting"@, "speed_setting"@, "depth_setting"@, "language"@, "position_setting"@, "unknown_field_45"@, "unknown_field_37"@, "unknown_field_60"@, "temperature_setting"@, "unknown_field_54"@, "sleep_time"@, "unknown_field_58"@, "elev_setting"@, "weight_setting"@, "unknown_field_62"@, "height"@, "resting_heart_rate"@, "unknown_field_24"@, "wake_time"@, "dist_setting"@, "unknown_field_44"@, "activity_class"@, "gender"@, "unknown_field_52"@, "weight"@, "unknown_field_53"@, "unknown_field_57"@, "height_setting"@, "unknown_field_33"@]),
        ("file_id"@, seq!["time_created"@, "type"@, "garmin_product"@, "manufacturer"@, "serial_number"@]),
        ("event"@, seq!["event"@, "timestamp"@, "timer_trigger"@, "event_type"@, "event_group"@]),
        ("zones_target"@, seq!["max_heart_rate"@, "threshold_heart_rate"@, "pwr_calc_type"@, "unknown_field_10"@, "hr_calc_type"@, "unknown_field_13"@, "unknown_field_11"@, "unknown_field_12"@, "unknown_field_9"@, "unknown_field_254"@, "functional_threshold_power"@]),
        ("sport"@, seq!["unknown_field_13"@, "sport"@, "sub_sport"@, "name"@, "unknown_field_5"@, "unknown_field_6"@, "unknown_field_11"@]),
        ("device_settings"@, seq!["unknown_field_141"@, "unknown_field_124"@, "unknown_field_41"@, "unknown_field_43"@, "unknown_field_109"@, "unknown_field_112"@, "unknown_field_164"@, "unknown_field_180"@, "unknown_field_211"@, "unknown_field_212"@, "unknown_field_126"@, "unknown_field_68"@, "lactate_threshold_autodetect_enabled"@, "time_zone_offset"@, "unknown_field_205"@, "unknown_field_206"@, "mounting_side"@, "unknown_field_53"@, "unknown_field_219"@, "unknown_field_200"@, "date_mode"@, "unknown_field_128"@, "unknown_field_199"@, "unknown_field_127"@, "unknown_field_177"@, "unknown_field_108"@, "unknown_field_162"@, "unknown_field_201"@, "unknown_field_15"@, "unknown_field_243"@, "utc_offset"@, "time_offset"@, "unknown_field_101"@, "unknown_field_22"@, "unknown_field_52"@, "unknown_field_135"@, "unknown_field_218"@, "unknown_field_69"@, "activity_tracker_enabled"@, "unknown_field_63"@, "unknown_field_81"@, "unknown_field_161"@, "unknown_field_149"@, "unknown_field_181"@, "unknown_field_67"@, "unknown_field_87"@, "unknown_field_208"@, "unknown_field_178"@, "unknown_field_209"@, "unknown_field_65"@, "unknown_field_83"@, "unknown_field_11"@, "unknown_field_217"@, "time_mode"@, "unknown_field_139"@, "unknown_field_26"@, "unknown_field_45"@, "unknown_field_66"@, "unknown_field_82"@, "unknown_field_84"@, "unknown_field_160"@, "unknown_field_143"@, "unknown_field_145"@, "autosync_min_time"@, "unknown_field_204"@, "backlight_mode"@, "unknown_field_13"@, "unknown_field_125"@, "unknown_field_48"@, "autosync_min_steps"@, "active_time_zone"@, "unknown_field_144"@, "unknown_field_207"@, "unknown_field_110"@, "unknown_field_203"@, "unknown_field_179"@, "unknown_field_111"@, "unknown_field_163"@, "unknown_field_64"@, "unknown_field_138"@, "unknown_field_210"@, "unknown_field_14"@, "unknown_field_10"@, "unknown_field_107"@, "unknown_field_44"@, "unknown_field_85"@, "auto_activity_detect"@, "unknown_field_35"@, "unknown_field_75"@, "move_alert_enabled"@, "unknown_field_3"@, "unknown_field_42"@, "unknown_field_133"@]),
        ("time_in_zone"@, seq!["hr_calc_type"@, "reference_index"@, "time_in_hr_zone"@, "threshold_heart_rate"@, "timestamp"@, "reference_mesg"@, "hr_zone_high_boundary"@, "max_heart_rate"@, "resting_heart_rate"@]),
        ("record"@, seq!["timestamp"@, "unknown_field_136"@, "unknown_field_141"@, "heart_rate"@, "resistance"@, "distance"@, "unknown_field_135"@, "enhanced_respiration_rate"@]),
        ("session"@, seq!["unknown_field_188"@, "total_cycles"@, "start_time"@, "enhanced_min_respiration_rate"@, "enhanced_max_respiration_rate"@, "total_training_effect"@, "unknown_field_138"@, "message_index"@, "enhanced_avg_respiration_rate"@, "total_elapsed_time"@, "num_laps"@, "unknown_field_81"@, "first_lap_index"@, "total_calories"@, "max_heart_rate"@, "unknown_field_151"@, "total_anaerobic_training_effect"@, "training_load_peak"@, "avg_heart_rate"@, "sport_profile_name"@, "sub_sport"@, "unknown_field_184"@, "timestamp"@, "total_timer_time"@, "enhanced_avg_speed"@, "sport"@, "trigger"@, "total_distance"@, "unknown_field_196"@, "event"@, "unknown_field_152"@, "event_type"@]),
        ("file_creator"@, seq!["software_version"@, "unknown_field_2"@]),
        ("lap"@, seq!["start_time"@, "max_heart_rate"@, "total_timer_time"@, "enhanced_avg_speed"@, "enhanced_avg_respiration_rate"@, "sub_sport"@, "message_index"@, "sport"@, "avg_heart_rate"@, "total_calories"@, "enhanced_max_respiration_rate"@, "event"@, "total_distance"@, "timestamp"@, "total_cycles"@, "lap_trigger"@, "event_type"@, "total_elapsed_time"@, "unknown_field_155"@]),
        ("activity"@, seq!["type"@, "total_timer_time"@, "event_type"@, "event"@, "local_timestamp"@, "timestamp"@, "num_sessions"@, "unknown_field_8"@]),
        ("device_info"@, seq!["device_index"@, "local_device_type"@, "unknown_field_17"@, "battery_level"@, "serial_number"@, "unknown_field_24"@, "software_version"@, "ant_network"@, "battery_status"@, "unknown_field_30"@, "garmin_product"@, "timestamp"@, "antplus_device_type"@, "unknown_field_15"@, "product"@, "source_type"@, "ble_device_type"@, "unknown_field_29"@, "manufacturer"@]),
    ]
}

/// All currently known data fields of each record kind of an activity file.
pub fn get_activity_map() -> (r: Vec<(String, Vec<String>)>)
    ensures
        r.deep_view() == activity_map_spec(),
{
    let r: Vec<(String, Vec<String>)> = vec![
        ("user_profile".to_owned(), vec!["unknown_field_43".to_owned(), "hr_setting".to_owned(), "speed_setting".to_owned(), "depth_setting".to_owned(), "language".to_owned(), "position_setting".to_owned(), "unknown_field_45".to_owned(), "unknown_field_37".to_owned(), "unknown_field_60".to_owned(), "temperature_setting".to_owned(), "unknown_field_54".to_owned(), "sleep_time".to_owned(), "unknown_field_58".to_owned(), "elev_setting".to_owned(), "weight_setting".to_owned(), "unknown_field_62".to_owned(), "height".to_owned(), "resting_heart_rate".to_owned(), "unknown_field_24".to_owned(), "wake_time".to_owned(), "dist_setting".to_owned(), "unknown_field_44".to_owned(), "activity_class".to_owned(), "gender".to_owned(), "unknown_field_52".to_owned(), "weight".to_owned(), "unknown_field_53".to_owned(), "unknown_field_57".to_owned(), "height_setting".to_owned(), "unknown_field_33".to_owned()]),
        ("file_id".to_owned(), vec!["time_created".to_owned(), "type".to_owned(), "garmin_product".to_owned(), "manufacturer".to_owned(), "serial_number".to_owned()]),
        ("event".to_owned(), vec!["event".to_owned(), "timestamp".to_owned(), "timer_trigger".to_owned(), "event_type".to_owned(), "event_group".to_owned()]),
        ("zones_target".to_owned(), vec!["max_heart_rate".to_owned(), "threshold_heart_rate".to_owned(), "pwr_calc_type".to_owned(), "unknown_field_10".to_owned(), "hr_calc_type".to_owned(), "unknown_field_13".to_owned(), "unknown_field_11".to_owned(), "unknown_field_12".to_owned(), "unknown_field_9".to_owned(), "unknown_field_254".to_owned(), "functional_threshold_power".to_owned()]),
        ("sport".to_owned(), vec!["unknown_field_13".to_owned(), "sport".to_owned(), "sub_sport".to_owned(), "name".to_owned(), "unknown_field_5".to_owned(), "unknown_field_6".to_owned(), "unknown_field_11".to_owned()]),
        ("device_settings".to_owned(), vec!["unknown_field_141".to_owned(), "unknown_field_124".to_owned(), "unknown_field_41".to_owned(), "unknown_field_43".to_owned(), "unknown_field_109".to_owned(), "unknown_field_112".to_owned(), "unknown_field_164".to_owned(), "unknown_field_180".to_owned(), "unknown_field_211".to_owned(), "unknown_field_212".to_owned(), "unknown_field_126".to_owned(), "unknown_field_68".to_owned(), "lactate_threshold_autodetect_enabled".to_owned(), "time_zone_offset".to_owned(), "unknown_field_205".to_owned(), "unknown_field_206".to_owned(), "mounting_side".to_owned(), "unknown_field_53".to_owned(), "unknown_field_219".to_owned(), "unknown_field_200".to_owned(), "date_mode".to_owned(), "unknown_field_128".to_owned(), "unknown_field_199".to_owned(), "unknown_field_127".to_owned(), "unknown_field_177".to_owned(), "unknown_field_108".to_owned(), "unknown_field_162".to_owned(), "unknown_field_201".to_owned(), "unknown_field_15".to_owned(), "unknown_field_243".to_owned(), "utc_offset".to_owned(), "time_offset".to_owned(), "unknown_field_101".to_owned(), "unknown_field_22".to_owned(), "unknown_field_52".to_owned(), "unknown_field_135".to_owned(), "unknown_field_218".to_owned(), "unknown_field_69".to_owned(), "activity_tracker_enabled".to_owned(), "unknown_field_63".to_owned(), "unknown_field_81".to_owned(), "unknown_field_161".to_owned(), "unknown_field_149".to_owned(), "unknown_field_181".to_owned(), "unknown_field_67".to_owned(), "unknown_field_87".to_owned(), "unknown_field_208".to_owned(), "unknown_field_178".to_owned(), "unknown_field_209".to_owned(), "unknown_field_65".to_owned(), "unknown_field_83".to_owned(), "unknown_field_11".to_owned(), "unknown_field_217".to_owned(), "time_mode".to_owned(), "unknown_field_139".to_owned(), "unknown_field_26".to_owned(), "unknown_field_45".to_owned(), "unknown_field_66".to_owned(), "unknown_field_82".to_owned(), "unknown_field_84".to_owned(), "unknown_field_160".to_owned(), "unknown_field_143".to_owned(), "unknown_field_145".to_owned(), "autosync_min_time".to_owned(), "unknown_field_204".to_owned(), "backlight_mode".to_owned(), "unknown_field_13".to_owned(), "unknown_field_125".to_owned(), "unknown_field_48".to_owned(), "autosync_min_steps".to_owned(), "active_time_zone".to_owned(), "unknown_field_144".to_owned(), "unknown_field_207".to_owned(), "unknown_field_110".to_owned(), "unknown_field_203".to_owned(), "unknown_field_179".to_owned(), "unknown_field_111".to_owned(), "unknown_field_163".to_owned(), "unknown_field_64".to_owned(), "unknown_field_138".to_owned(), "unknown_field_210".to_owned(), "unknown_field_14".to_owned(), "unknown_field_10".to_owned(), "unknown_field_107".to_owned(), "unknown_field_44".to_owned(), "unknown_field_85".to_owned(), "auto_activity_detect".to_owned(), "unknown_field_35".to_owned(), "unknown_field_75".to_owned(), "move_alert_enabled".to_owned(), "unknown_field_3".to_owned(), "unknown_field_42".to_owned(), "unknown_field_133".to_owned()]),
        ("time_in_zone".to_owned(), vec!["hr_calc_type".to_owned(), "reference_index".to_owned(), "time_in_hr_zone".to_owned(), "threshold_heart_rate".to_owned(), "timestamp".to_owned(), "reference_mesg".to_owned(), "hr_zone_high_boundary".to_owned(), "max_heart_rate".to_owned(), "resting_heart_rate".to_owned()]),
        ("record".to_owned(), vec!["timestamp".to_owned(), "unknown_field_136".to_owned(), "unknown_field_141".to_owned(), "heart_rate".to_owned(), "resistance".to_owned(), "distance".to_owned(), "unknown_field_135".to_owned(), "enhanced_respiration_rate".to_owned()]),
        ("session".to_owned(), vec!["unknown_field_188".to_owned(), "total_cycles".to_owned(), "start_time".to_owned(), "enhanced_min_respiration_rate".to_owned(), "enhanced_max_respiration_rate".to_owned(), "total_training_effect".to_owned(), "unknown_field_138".to_owned(), "message_index".to_owned(), "enhanced_avg_respiration_rate".to_owned(), "total_elapsed_time".to_owned(), "num_laps".to_owned(), "unknown_field_81".to_owned(), "first_lap_index".to_owned(), "total_calories".to_owned(), "max_heart_rate".to_owned(), "unknown_field_151".to_owned(), "total_anaerobic_training_effect".to_owned(), "training_load_peak".to_owned(), "avg_heart_rate".to_owned(), "sport_profile_name".to_owned(), "sub_sport".to_owned(), "unknown_field_184".to_owned(), "timestamp".to_owned(), "total_timer_time".to_owned(), "enhanced_avg_speed".to_owned(), "sport".to_owned(), "trigger".to_owned(), "total_distance".to_owned(), "unknown_field_196".to_owned(), "event".to_owned(), "unknown_field_152".to_owned(), "event_type".to_owned()]),
        ("file_creator".to_owned(), vec!["software_version".to_owned(), "unknown_field_2".to_owned()]),
        ("lap".to_owned(), vec!["start_time".to_owned(), "max_heart_rate".to_owned(), "total_timer_time".to_owned(), "enhanced_avg_speed".to_owned(), "enhanced_avg_respiration_rate".to_owned(), "sub_sport".to_owned(), "message_index".to_owned(), "sport".to_owned(), "avg_heart_rate".to_owned(), "total_calories".to_owned(), "enhanced_max_respiration_rate".to_owned(), "event".to_owned(), "total_distance".to_owned(), "timestamp".to_owned(), "total_cycles".to_owned(), "lap_trigger".to_owned(), "event_type".to_owned(), "total_elapsed_time".to_owned(), "unknown_field_155".to_owned()]),
        ("activity".to_owned(), vec!["type".to_owned(), "total_timer_time".to_owned(), "event_type".to_owned(), "event".to_owned(), "local_timestamp".to_owned(), "timestamp".to_owned(), "num_sessions".to_owned(), "unknown_field_8".to_owned()]),
        ("device_info".to_owned(), vec!["device_index".to_owned(), "local_device_type".to_owned(), "unknown_field_17".to_owned(), "battery_level".to_owned(), "serial_number".to_owned(), "unknown_field_24".to_owned(), "software_version".to_owned(), "ant_network".to_owned(), "battery_status".to_owned(), "unknown_field_30".to_owned(), "garmin_product".to_owned(), "timestamp".to_owned(), "antplus_device_type".to_owned(), "unknown_field_15".to_owned(), "product".to_owned(), "source_type".to_owned(), "ble_device_type".to_owned(), "unknown_field_29".to_owned(), "manufacturer".to_owned()]),
    ];
    proof {
        assert(r.deep_view() =~~= activity_map_spec());
    }
    r
}

/// The exact contents of `get_monitoring_map`.
pub open spec fn monitoring_map_spec() -> Seq<(Seq<char>, Seq<Seq<char>>)> {
    seq![
        ("monitoring"@, seq!["unknown_field_36"@, "intensity"@, "timestamp_16"@, "activity_type"@, "steps"@, "active_calories"@, "active_time"@, "unknown_field_38"@, "timestamp"@, "unknown_field_35"@, "distance"@, "unknown_field_37"@, "duration_min"@, "heart_rate"@]),
        ("ohr_settings"@, seq!["enabled"@, "timestamp"@]),
        ("stress_level"@, seq!["stress_level_time"@, "unknown_field_3"@, "unknown_field_4"@, "unknown_field_2"@, "stress_level_value"@]),
        ("monitoring_info"@, seq!["cycles_to_calories"@, "resting_metabolic_rate"@, "unknown_field_7"@, "timestamp"@, "activity_type"@, "local_timestamp"@, "cycles_to_distance"@]),
        ("file_id"@, seq!["garmin_product"@, "number"@, "serial_number"@, "time_created"@, "type"@, "manufacturer"@]),
        ("event"@, seq!["event"@, "auto_activity_detect_start_timestamp"@, "activity_type"@, "auto_activity_detect_duration"@, "event_type"@, "data"@, "timestamp"@]),
        ("respiration_rate"@, seq!["timestamp"@, "respiration_rate"@]),
        ("monitoring_hr_data"@, seq!["resting_heart_rate"@, "timestamp"@, "current_day_resting_heart_rate"@]),
        ("device_info"@, seq!["serial_number"@, "timestamp"@, "software_version"@, "garmin_product"@, "manufacturer"@]),
        ("sleep_level"@, seq!["sleep_level"@, "timestamp"@]),
        ("sleep_assessment"@, seq!["combined_awake_score"@, "deep_sleep_score"@, "overall_sleep_score"@, "unknown_field_13"@, "sleep_duration_score"@, "sleep_recovery_score"@, "awakenings_count"@, "sleep_restlessness_score"@, "interruptions_score"@, "unknown_field_16"@, "unknown_field_12"@, "average_stress_during_sleep"@, "sleep_quality_score"@, "rem_sleep_score"@, "awakenings_count_score"@, "light_sleep_score"@, "awake_time_score"@]),
        ("hrv_status_summary"@, seq!["unknown_field_7"@, "baseline_balanced_upper"@, "last_night_5_min_high"@, "timestamp"@, "last_night_average"@, "status"@, "baseline_balanced_lower"@, "weekly_average"@, "baseline_low_upper"@, "unknown_field_8"@]),
        ("hrv_value"@, seq!["value"@, "timestamp"@]),
    ]
}

/// All currently known data fields of each record kind of a monitoring file.
pub fn get_monitoring_map() -> (r: Vec<(String, Vec<String>)>)
    ensures
        r.deep_view() == monitoring_map_spec(),
{
    let r: Vec<(String, Vec<String>)> = vec![
        ("monitoring".to_owned(), vec!["unknown_field_36".to_owned(), "intensity".to_owned(), "timestamp_16".to_owned(), "activity_type".to_owned(), "steps".to_owned(), "active_calories".to_owned(), "active_time".to_owned(), "unknown_field_38".to_owned(), "timestamp".to_owned(), "unknown_field_35".to_owned(), "distance".to_owned(), "unknown_field_37".to_owned(), "duration_min".to_owned(), "heart_rate".to_owned()]),
        ("ohr_settings".to_owned(), vec!["enabled".to_owned(), "timestamp".to_owned()]),
        ("stress_level".to_owned(), vec!["stress_level_time".to_owned(), "unknown_field_3".to_owned(), "unknown_field_4".to_owned(), "unknown_field_2".to_owned(), "stress_level_value".to_owned()]),
        ("monitoring_info".to_owned(), vec!["cycles_to_calories".to_owned(), "resting_metabolic_rate".to_owned(), "unknown_field_7".to_owned(), "timestamp".to_owned(), "activity_type".to_owned(), "local_timestamp".to_owned(), "cycles_to_distance".to_owned()]),
        ("file_id".to_owned(), vec!["garmin_product".to_owned(), "number".to_owned(), "serial_number".to_owned(), "time_created".to_owned(), "type".to_owned(), "manufacturer".to_owned()]),
        ("event".to_owned(), vec!["event".to_owned(), "auto_activity_detect_start_timestamp".to_owned(), "activity_type".to_owned(), "auto_activity_detect_duration".to_owned(), "event_type".to_owned(), "data".to_owned(), "timestamp".to_owned()]),
        ("respiration_rate".to_owned(), vec!["timestamp".to_owned(), "respiration_rate".to_owned()]),
        ("monitoring_hr_data".to_owned(), vec!["resting_heart_rate".to_owned(), "timestamp".to_owned(), "current_day_resting_heart_rate".to_owned()]),
        ("device_info".to_owned(), vec!["serial_number".to_owned(), "timestamp".to_owned(), "software_version".to_owned(), "garmin_product".to_owned(), "manufacturer".to_owned()]),
        ("sleep_level".to_owned(), vec!["sleep_level".to_owned(), "timestamp".to_owned()]),
        ("sleep_assessment".to_owned(), vec!["combined_awake_score".to_owned(), "deep_sleep_score".to_owned(), "overall_sleep_score".to_owned(), "unknown_field_13".to_owned(), "sleep_duration_score".to_owned(), "sleep_recovery_score".to_owned(), "awakenings_count".to_owned(), "sleep_restlessness_score".to_owned(), "interruptions_score".to_owned(), "unknown_field_16".to_owned(), "unknown_field_12".to_owned(), "average_stress_during_sleep".to_owned(), "sleep_quality_score".to_owned(), "rem_sleep_score".to_owned(), "awakenings_count_score".to_owned(), "light_sleep_score".to_owned(), "awake_time_score".to_owned()]),
        ("hrv_status_summary".to_owned(), vec!["unknown_field_7".to_owned(), "baseline_balanced_upper".to_owned(), "last_night_5_min_high".to_owned(), "timestamp".to_owned(), "last_night_average".to_owned(), "status".to_owned(), "baseline_balanced_lower".to_owned(), "weekly_average".to_owned(), "baseline_low_upper".to_owned(), "unknown_field_8".to_owned()]),
        ("hrv_value".to_owned(), vec!["value".to_owned(), "timestamp".to_owned()]),
    ];
    proof {
        assert(r.deep_view() =~~= monitoring_map_spec());
    }
    r
}

} // verus!
