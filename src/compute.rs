//! Records exchanged with the compute diagnostics service.
use vstd::prelude::*;

pub mod run_disk_inspection_async_operation_result;

use run_disk_inspection_async_operation_result::ResultStatus;

verus! {

/// Contains metadata of a diagnostic type.
#[derive(Clone, Debug, PartialEq)]
pub struct ComputeDiagnosticBase {
    /// Identifier for the type of diagnostic.
    pub id: Option<String>,
    /// Friendly name for the type of diagnostic.
    pub name: Option<String>,
    /// Type of the diagnostic.
    pub type_: Option<String>,
    /// Additional properties of the diagnostic.
    pub properties: Option<DiagnosticProperties>,
}

impl ComputeDiagnosticBase {
    /// A record with every field absent.
    pub fn new() -> (r: Self)
        ensures
            r.id is None,
            r.name is None,
            r.type_ is None,
            r.properties is None,
    {
        ComputeDiagnosticBase { id: None, name: None, type_: None, properties: None }
    }
}

/// Lists all available Compute diagnostics for a subscription in a location.
#[derive(Clone, Debug, PartialEq)]
pub struct ComputeDiagnosticsList {
    /// The diagnostics returned by the listing operation.
    pub value: Vec<ComputeDiagnosticBase>,
    /// The continuation token.
    pub next_link: Option<String>,
}

impl ComputeDiagnosticsList {
    /// An empty list with no continuation token.
    pub fn new() -> (r: Self)
        ensures
            r.value@.len() == 0,
            r.next_link is None,
    {
        ComputeDiagnosticsList { value: Vec::new(), next_link: None }
    }
}

/// Contains additional properties of a diagnostic.
#[derive(Clone, Debug, PartialEq)]
pub struct DiagnosticProperties {
    /// The resource types that the diagnostic supports.
    pub supported_resource_types: Vec<String>,
}

impl DiagnosticProperties {
    /// Properties naming no resource type.
    pub fn new() -> (r: Self)
        ensures
            r.supported_resource_types@.len() == 0,
    {
        DiagnosticProperties { supported_resource_types: Vec::new() }
    }
}

/// Error Detail message.
#[derive(Debug, PartialEq)]
pub struct ErrorDetail {
    /// The error code.
    pub code: Option<String>,
    /// The target of the particular error.
    pub target: Option<String>,
    /// User friendly error message.
    pub message: Option<String>,
    /// The nested error details.
    pub details: Vec<ErrorDetail>,
    /// Inner error details.
    pub inner_error: Option<InnerError>,
}

impl ErrorDetail {
    /// A detail with every field absent and no nested details.
    pub fn new() -> (r: Self)
        ensures
            r.code is None,
            r.target is None,
            r.message is None,
            r.details@.len() == 0,
            r.inner_error is None,
    {
        ErrorDetail { code: None, target: None, message: None, details: Vec::new(), inner_error: None }
    }
}

/// An error response from the Compute Diagnostic Resource Provider service.
#[derive(Debug, PartialEq)]
pub struct ErrorResponse {
    /// Error Detail message.
    pub error: Option<ErrorDetail>,
}

impl ErrorResponse {
    /// A response with no detail.
    pub fn new() -> (r: Self)
        ensures
            r.error is None,
    {
        ErrorResponse { error: None }
    }
}

/// Inner error details.
#[derive(Clone, Debug, PartialEq)]
pub struct InnerError {
    /// The exception type.
    pub exceptiontype: Option<String>,
    /// The internal error message or exception dump.
    pub errordetail: Option<String>,
}

impl InnerError {
    /// Inner details with every field absent.
    pub fn new() -> (r: Self)
        ensures
            r.exceptiontype is None,
            r.errordetail is None,
    {
        InnerError { exceptiontype: None, errordetail: None }
    }
}

/// Output of a disk inspection once it has completed.
#[derive(Debug, PartialEq)]
pub struct RunDiskInspectionAsyncOperationResult {
    pub result: Option<String>,
    pub result_status: Option<ResultStatus>,
    /// Error Detail message.
    pub error_detail: Option<ErrorDetail>,
    /// The time when the disk inspection was completed.
    pub created_utc: Option<String>,
}

impl RunDiskInspectionAsyncOperationResult {
    /// A result with every field absent.
    pub fn new() -> (r: Self)
        ensures
            r.result is None,
            r.result_status is None,
            r.error_detail is None,
            r.created_utc is None,
    {
        RunDiskInspectionAsyncOperationResult {
            result: None,
            result_status: None,
            error_detail: None,
            created_utc: None,
        }
    }
}

/// Data used for requesting a Disk Inspection execution.
#[derive(Clone, Debug, PartialEq)]
pub struct RunDiskInspectionInput {
    /// Qualified name of the resource.
    pub resource_id: String,
    /// Name of manifest in order to trigger Disk Inspection.
    pub manifest: String,
    /// SAS uri to the blob where results will be uploaded.
    pub upload_sas_uri: String,
}

impl RunDiskInspectionInput {
    /// A request made of the three given values.
    pub fn new(resource_id: String, manifest: String, upload_sas_uri: String) -> (r: Self)
        ensures
            r.resource_id == resource_id,
            r.manifest == manifest,
            r.upload_sas_uri == upload_sas_uri,
    {
        RunDiskInspectionInput { resource_id, manifest, upload_sas_uri }
    }
}

} // verus!
