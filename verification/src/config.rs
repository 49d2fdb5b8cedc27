//! Static configuration of the download side, and the user-profile
//! fields the backend reports. The surrounding application deserializes
//! its configuration files into mirror types and converts; the library
//! works on these plain values.
use vstd::prelude::*;

verus! {

/// The backend domain to log in against.
#[derive(Debug, PartialEq, Eq)]
pub struct Domain {
    pub domain: String,
}

impl Default for Domain {
    fn default() -> (r: Domain)
        ensures
            r.domain@ =~= Seq::<char>::empty(),
    {
        Domain { domain: String::new() }
    }
}

/// The account credentials the login flow submits.
#[derive(Debug, PartialEq, Eq)]
pub struct Credentials {
    pub user: String,
    pub secure_password: bool,
    pub password: String,
}

impl Default for Credentials {
    fn default() -> (r: Credentials)
        ensures
            r.user@ =~= Seq::<char>::empty(),
            r.secure_password == false,
            r.password@ =~= Seq::<char>::empty(),
    {
        Credentials { user: String::new(), secure_password: false, password: String::new() }
    }
}

/// The dates each data download is asked for.
#[derive(Debug, PartialEq, Eq)]
pub struct DataConfig {
    pub summary_date: String,
    pub weight_start_date: String,
    pub sleep_start_date: String,
    pub rhr_start_date: String,
    pub monitoring_start_date: String,
    pub download_today_data: bool,
}

impl Default for DataConfig {
    fn default() -> (r: DataConfig)
        ensures
            r.summary_date@ =~= Seq::<char>::empty(),
            r.weight_start_date@ =~= Seq::<char>::empty(),
            r.sleep_start_date@ =~= Seq::<char>::empty(),
            r.rhr_start_date@ =~= Seq::<char>::empty(),
            r.monitoring_start_date@ =~= Seq::<char>::empty(),
            r.download_today_data == false,
    {
        DataConfig {
            summary_date: String::new(),
            weight_start_date: String::new(),
            sleep_start_date: String::new(),
            rhr_start_date: String::new(),
            monitoring_start_date: String::new(),
            download_today_data: false,
        }
    }
}

/// How many activities to download.
#[derive(Debug, PartialEq, Eq)]
pub struct ActivityConfig {
    pub num_activities_to_download: String,
}

impl Default for ActivityConfig {
    fn default() -> (r: ActivityConfig)
        ensures
            r.num_activities_to_download@ =~= Seq::<char>::empty(),
    {
        ActivityConfig { num_activities_to_download: String::new() }
    }
}

/// Where and whether downloads are saved to file.
#[derive(Debug, PartialEq, Eq)]
pub struct FileConfig {
    pub file_date_format: String,
    pub file_base_path: String,
    pub save_to_file: bool,
    pub overwrite: bool,
}

impl Default for FileConfig {
    fn default() -> (r: FileConfig)
        ensures
            r.file_date_format@ =~= Seq::<char>::empty(),
            r.file_base_path@ =~= Seq::<char>::empty(),
            r.save_to_file == false,
            r.overwrite == false,
    {
        FileConfig {
            file_date_format: String::new(),
            file_base_path: String::new(),
            save_to_file: false,
            overwrite: false,
        }
    }
}

/// Which statistics are enabled for download.
#[derive(Debug, PartialEq, Eq)]
pub struct EnabledStats {
    pub daily_summary: bool,
    pub monitoring: bool,
    pub sleep: bool,
    pub rhr: bool,
    pub weight: bool,
    pub activities: bool,
}

impl Default for EnabledStats {
    fn default() -> (r: EnabledStats)
        ensures
            r.daily_summary == false,
            r.monitoring == false,
            r.sleep == false,
            r.rhr == false,
            r.weight == false,
            r.activities == false,
    {
        EnabledStats {
            daily_summary: false,
            monitoring: false,
            sleep: false,
            rhr: false,
            weight: false,
            activities: false,
        }
    }
}

/// The whole download-side configuration.
#[derive(Debug, PartialEq, Eq)]
pub struct GarminConfig {
    pub garmin: Domain,
    pub credentials: Credentials,
    pub data: DataConfig,
    pub activities: ActivityConfig,
    pub file: FileConfig,
    pub enabled_stats: EnabledStats,
}

impl Default for GarminConfig {
    fn default() -> (r: GarminConfig)
        ensures
            r.garmin.domain@ =~= Seq::<char>::empty(),
            r.credentials.user@ =~= Seq::<char>::empty(),
            r.data.download_today_data == false,
            r.enabled_stats.activities == false,
    {
        GarminConfig {
            garmin: Default::default(),
            credentials: Default::default(),
            data: Default::default(),
            activities: Default::default(),
            file: Default::default(),
            enabled_stats: Default::default(),
        }
    }
}

/// Profile fields of the logged-in user, as the personal-information
/// endpoint reports them.
#[allow(non_snake_case)]
#[derive(Debug, PartialEq, Eq)]
pub struct UserInfo {
    pub birthDate: String,
    pub genderType: String,
    pub email: String,
    pub locale: String,
    pub timeZone: String,
    pub age: u32,
    pub countryCode: String,
}

impl Default for UserInfo {
    fn default() -> (r: UserInfo)
        ensures
            r.birthDate@ =~= Seq::<char>::empty(),
            r.genderType@ =~= Seq::<char>::empty(),
            r.email@ =~= Seq::<char>::empty(),
            r.locale@ =~= Seq::<char>::empty(),
            r.timeZone@ =~= Seq::<char>::empty(),
            r.age == 0,
            r.countryCode@ =~= Seq::<char>::empty(),
    {
        UserInfo {
            birthDate: String::new(),
            genderType: String::new(),
            email: String::new(),
            locale: String::new(),
            timeZone: String::new(),
            age: 0,
            countryCode: String::new(),
        }
    }
}

} // verus!
