//! A marketplace of time-boxed courses: teachers list courses, students enroll
//! by paying the price, and the teacher's completion mark issues a
//! non-transferable certificate token to the student.
//!
//! The environment (caller identity, block time, value transfers, event
//! delivery) is handed to the state machine as plain values.

pub mod certificate_id;
pub mod eduverse;
pub mod encoding;
pub mod laws;
pub mod types;

pub use eduverse::{Eduverse, EduverseView, MAX_DESCRIPTION_LEN, MAX_TITLE_LEN};
pub use types::{
    AccountId, CertificateInfo, Course, CourseCompleted, CourseCreated, CourseUpdated, Error, Event,
    PSP34Error, PSP34Transfer, StudentEnrolled,
};
