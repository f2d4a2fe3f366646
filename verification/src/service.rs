//! Data model of the companion local-service API, with the pure decision
//! rules applied to its responses. The HTTP exchanges themselves live with
//! the callers; these types carry what came back.

use vstd::prelude::*;

verus! {

use vstd::string::StringExecFns;
use crate::text::str_eq;

/// The running-core description the service reports.
#[derive(Debug, Clone)]
pub struct ResponseBody {
    pub core_type: Option<String>,
    pub bin_path: String,
    pub config_dir: String,
    pub log_file: String,
}

/// The service's name and version.
#[derive(Debug, Clone)]
pub struct VersionResponse {
    pub service: String,
    pub version: String,
}

/// The envelope of the running-core endpoint.
#[derive(Debug, Clone)]
pub struct JsonResponse {
    pub code: u64,
    pub msg: String,
    pub data: Option<ResponseBody>,
}

/// The envelope of the version endpoint.
#[derive(Debug, Clone)]
pub struct VersionJsonResponse {
    pub code: u64,
    pub msg: String,
    pub data: Option<VersionResponse>,
}

/// The generic envelope of the remaining API endpoints.
#[derive(Debug)]
pub struct ApiResponse<T> {
    pub code: i32,
    pub msg: String,
    pub data: Option<T>,
}

/// A license record.
#[derive(Debug)]
pub struct LicenseInfo {
    pub _id: String,
    pub license_key: String,
    pub start_time: String,
    pub subscription_type: String,
    pub allowed_platform: String,
    pub last_activity: String,
    pub windows_device: DeviceInfo,
    pub android_device: Option<DeviceInfo>,
}

/// One device bound to a license.
#[derive(Debug)]
pub struct DeviceInfo {
    pub is_active: bool,
    pub last_login: Option<String>,
}

/// The server inventory.
#[derive(Debug)]
pub struct ServerInfo {
    pub servers: Vec<Server>,
    pub total_servers: i32,
    pub live_servers: i32,
    pub reserved_servers: i32,
}

/// One server of the inventory.
#[derive(Debug)]
pub struct Server {
    pub name: String,
    pub status: String,
}

/// The version every installation is expected to run.
pub open spec fn required_service_version() -> Seq<char> {
    "1.0.2"@
}

/// The service counts as running when its status endpoint answers with
/// code 200, message `success`, and a core description.
pub fn service_running(resp: &JsonResponse) -> (r: bool)
    ensures
        r == (resp.code == 200 && resp.msg@ == "success"@ && resp.data is Some),
{
    resp.code == 200 && str_eq(resp.msg.as_str(), "success") && resp.data.is_some()
}

/// The version carried by a version-endpoint answer, when there is one.
pub fn service_version_of(resp: VersionJsonResponse) -> (r: Option<String>)
    ensures
        match resp.data {
            Some(d) => r == Some(d.version),
            None => r is None,
        },
{
    match resp.data {
        Some(d) => Some(d.version),
        None => None,
    }
}

/// A reinstall is due whenever no version could be read, or the version
/// read is not the required one.
pub fn service_needs_reinstall(version: &Option<String>) -> (r: bool)
    ensures
        r == !(version matches Some(v) && v@ == required_service_version()),
{
    match version {
        Some(v) => !str_eq(v.as_str(), "1.0.2"),
        None => true,
    }
}

/// A license validates only when the envelope's code is zero; the answer is
/// then its data, with a missing datum counting as invalid. Any other code
/// is an error carrying the envelope's message.
pub fn license_validation_outcome(resp: &ApiResponse<bool>) -> (r: Result<bool, String>)
    ensures
        resp.code == 0 ==> r == Ok::<bool, String>(
            match resp.data {
                Some(b) => b,
                None => false,
            },
        ),
        resp.code != 0 ==> (r matches Err(m) && m@ == "License validation failed: "@ + resp.msg@),
{
    if resp.code == 0 {
        match resp.data {
            Some(b) => Ok(b),
            None => Ok(false),
        }
    } else {
        let mut m = String::from_str("License validation failed: ");
        m.append(resp.msg.as_str());
        Err(m)
    }
}

/// The datum of a generic envelope.
pub fn api_data<T>(resp: ApiResponse<T>) -> (r: Option<T>)
    ensures
        r == resp.data,
{
    resp.data
}

/// A proxy start or stop succeeds only when the envelope's code is zero;
/// any other code is an error carrying the given prefix and the envelope's
/// message.
pub fn proxy_command_outcome(resp: &ApiResponse<()>, failure_prefix: &str) -> (r: Result<
    (),
    String,
>)
    ensures
        resp.code == 0 ==> r is Ok,
        resp.code != 0 ==> (r matches Err(m) && m@ == failure_prefix@ + resp.msg@),
{
    if resp.code == 0 {
        Ok(())
    } else {
        let mut m = String::from_str(failure_prefix);
        m.append(resp.msg.as_str());
        Err(m)
    }
}

/// The proxy-status listing, with a missing datum read as an empty listing.
pub fn proxy_status_data(resp: ApiResponse<Vec<(i32, bool)>>) -> (r: Vec<(i32, bool)>)
    ensures
        match resp.data {
            Some(d) => r == d,
            None => r@ == Seq::<(i32, bool)>::empty(),
        },
{
    match resp.data {
        Some(d) => d,
        None => Vec::new(),
    }
}

} // verus!
