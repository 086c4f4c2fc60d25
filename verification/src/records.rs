//! The plain records exchanged with the persistence layer and the
//! settings store.  The stores themselves are outside collaborators; the
//! core only produces and consumes these values.

use vstd::prelude::*;
use vstd::string::StringExecFns;
verus! {

/// A stored project.
#[derive(Debug, Clone)]
pub struct Project {
    pub id: String,
    pub name: String,
    pub folder: String,
    pub created_at: String,
    pub updated_at: String,
}

/// A request to create a project.
#[derive(Debug, Clone)]
pub struct CreateProjectRequest {
    pub id: String,
    pub name: String,
    pub folder: String,
}

/// A request to update fields of a project.
#[derive(Debug, Clone)]
pub struct UpdateProjectRequest {
    pub name: Option<String>,
    pub folder: Option<String>,
}

/// A stored service.
#[derive(Debug, Clone)]
pub struct Service {
    pub id: String,
    pub project_id: String,
    pub name: String,
    pub service_type: String,
    pub stack: String,
    pub path: String,
    pub url: String,
    pub port: i32,
    pub command: String,
    pub status: String,
    pub created_at: String,
    pub updated_at: String,
}

/// A request to create a service.
#[derive(Debug, Clone)]
pub struct CreateServiceRequest {
    pub id: String,
    pub project_id: String,
    pub name: String,
    pub service_type: String,
    pub stack: String,
    pub path: String,
    pub url: String,
    pub port: i32,
    pub command: String,
}

/// A request to update fields of a service.
#[derive(Debug, Clone)]
pub struct UpdateServiceRequest {
    pub name: Option<String>,
    pub service_type: Option<String>,
    pub stack: Option<String>,
    pub path: Option<String>,
    pub url: Option<String>,
    pub port: Option<i32>,
    pub command: Option<String>,
}

/// A service as handed back to the interface layer.
#[derive(Debug, Clone)]
pub struct ServiceResponse {
    pub id: String,
    pub project_id: String,
    pub name: String,
    pub service_type: String,
    pub stack: String,
    pub path: String,
    pub url: String,
    pub port: i32,
    pub command: String,
    pub status: String,
    pub created_at: String,
    pub updated_at: String,
}

/// A stored project with its services attached.
#[derive(Debug, Clone)]
pub struct ProjectWithServices {
    pub id: String,
    pub name: String,
    pub folder: String,
    pub created_at: String,
    pub updated_at: String,
    pub services: Vec<ServiceResponse>,
}

impl From<Service> for ServiceResponse {
    /// The response carries the record's fields unchanged.
    fn from(service: Service) -> (r: ServiceResponse)
    {
        ServiceResponse {
            id: service.id,
            project_id: service.project_id,
            name: service.name,
            service_type: service.service_type,
            stack: service.stack,
            path: service.path,
            url: service.url,
            port: service.port,
            command: service.command,
            status: service.status,
            created_at: service.created_at,
            updated_at: service.updated_at,
        }
    }
}

impl vstd::std_specs::convert::FromSpecImpl<Service> for ServiceResponse {
    open spec fn obeys_from_spec() -> bool {
        true
    }

    open spec fn from_spec(service: Service) -> ServiceResponse {
        ServiceResponse {
            id: service.id,
            project_id: service.project_id,
            name: service.name,
            service_type: service.service_type,
            stack: service.stack,
            path: service.path,
            url: service.url,
            port: service.port,
            command: service.command,
            status: service.status,
            created_at: service.created_at,
            updated_at: service.updated_at,
        }
    }
}

/// The persisted user settings.
#[derive(Debug, Clone)]
pub struct Settings {
    pub default_ide: String,
    pub ide_command: String,
    pub workspace_path: String,
    pub theme: String,
    pub default_suffix: String,
    pub scan_depth: u8,
}

impl Default for Settings {
    /// The out-of-the-box settings.
    fn default() -> (r: Settings)
        ensures
            r.default_ide@ == "zed"@,
            r.ide_command@ == "zed"@,
            r.workspace_path@.len() == 0,
            r.theme@ == "system"@,
            r.default_suffix@ == "test"@,
            r.scan_depth == 2,
    {
        Settings {
            default_ide: String::from_str("zed"),
            ide_command: String::from_str("zed"),
            workspace_path: String::new(),
            theme: String::from_str("system"),
            default_suffix: String::from_str("test"),
            scan_depth: 2,
        }
    }
}

} // verus!
