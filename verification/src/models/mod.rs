//! The records of the service and the requests that create and change them.

pub mod client;
pub mod contract;
pub mod invoice;
pub mod project;
pub mod resume;
pub mod time_entry;
pub mod user;

pub use client::{Client, CreateClientRequest, UpdateClientRequest};
pub use contract::{Contract, ContractStatus, CreateContractRequest, UpdateContractRequest};
pub use invoice::{
    CreateInvoiceRequest, Invoice, InvoiceItem, InvoiceStatus, Totals, UpdateInvoiceStatusRequest,
};
pub use project::{CreateProjectRequest, Project, ProjectStatus, UpdateProjectRequest};
pub use resume::{
    Certification, CreateResumeRequest, Education, Experience, Language, OptimizeResumeRequest,
    PersonalInfo, Resume,
};
pub use time_entry::{
    CreateTimeEntryRequest, StopTimeEntryRequest, TimeEntry, UpdateTimeEntryRequest,
};
pub use user::{AuthResponse, CreateUserRequest, LoginRequest, User, UserResponse};
