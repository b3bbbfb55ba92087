use vstd::prelude::*;

verus! {

/// An account identity: the 32 raw bytes of a public key.
#[derive(Debug, Clone, Copy, PartialEq, Eq)]
pub struct AccountId(pub [u8; 32]);

impl AccountId {
    pub fn from_bytes(bytes: [u8; 32]) -> (r: AccountId)
        ensures
            r.0 == bytes,
    {
        AccountId(bytes)
    }

    /// Byte-wise comparison of two identities.
    pub fn same_as(&self, other: &AccountId) -> (r: bool)
        ensures
            r == (*self == *other),
    {
        let mut i: usize = 0;
        while i < 32
            invariant
                0 <= i <= 32,
                forall|j: int| 0 <= j < i ==> self.0[j] == other.0[j],
            decreases 32 - i,
        {
            if self.0[i] != other.0[i] {
                return false;
            }
            i = i + 1;
        }
        proof {
            assert(self.0 =~= other.0);
        }
        true
    }
}

/// A course listed by a teacher.
#[derive(Debug, Clone, PartialEq, Eq)]
pub struct Course {
    pub id: u32,
    pub teacher: AccountId,
    pub title: String,
    pub description: String,
    pub max_students: u32,
    pub enrolled_count: u32,
    pub start_time: u64,
    pub end_time: u64,
    pub price: u128,
    pub active: bool,
    pub metadata_hash: String,
    pub created_at: u64,
}

impl Course {
    /// A field-by-field copy.
    pub fn copy(&self) -> (r: Course)
        ensures
            r == *self,
    {
        Course {
            id: self.id,
            teacher: self.teacher,
            title: self.title.clone(),
            description: self.description.clone(),
            max_students: self.max_students,
            enrolled_count: self.enrolled_count,
            start_time: self.start_time,
            end_time: self.end_time,
            price: self.price,
            active: self.active,
            metadata_hash: self.metadata_hash.clone(),
            created_at: self.created_at,
        }
    }
}

/// What a certificate token records: the course, a snapshot of its title at
/// issuance, the holder and the completion time.
#[derive(Debug, Clone, PartialEq, Eq)]
pub struct CertificateInfo {
    pub course_id: u32,
    pub course_title: String,
    pub student: AccountId,
    pub completion_date: u64,
}

impl CertificateInfo {
    /// A field-by-field copy.
    pub fn copy(&self) -> (r: CertificateInfo)
        ensures
            r == *self,
    {
        CertificateInfo {
            course_id: self.course_id,
            course_title: self.course_title.clone(),
            student: self.student,
            completion_date: self.completion_date,
        }
    }
}

#[derive(Debug, Clone, PartialEq, Eq)]
pub struct CourseCreated {
    pub course_id: u32,
    pub teacher: AccountId,
    pub title: String,
}

#[derive(Debug, Clone, PartialEq, Eq)]
pub struct StudentEnrolled {
    pub course_id: u32,
    pub student: AccountId,
    pub payment: u128,
}

#[derive(Debug, Clone, PartialEq, Eq)]
pub struct CourseCompleted {
    pub course_id: u32,
    pub student: AccountId,
    pub certificate_id: u128,
}

#[derive(Debug, Clone, PartialEq, Eq)]
pub struct CourseUpdated {
    pub course_id: u32,
    pub teacher: AccountId,
}

/// A certificate token changed hands; `from == None` is a mint.
#[derive(Debug, Clone, PartialEq, Eq)]
pub struct PSP34Transfer {
    pub from: Option<AccountId>,
    pub to: Option<AccountId>,
    pub id: u128,
}

/// A notification produced by a state-changing call, in call order.
#[derive(Debug, Clone, PartialEq, Eq)]
pub enum Event {
    CourseCreated(CourseCreated),
    StudentEnrolled(StudentEnrolled),
    CourseCompleted(CourseCompleted),
    CourseUpdated(CourseUpdated),
    PSP34Transfer(PSP34Transfer),
}

/// Errors of the certificate token interface.
#[derive(Debug, Clone, PartialEq, Eq)]
pub enum PSP34Error {
    Custom(String),
}

#[derive(Debug, Clone, PartialEq, Eq)]
pub enum Error {
    CourseNotActive,
    NotOwner,
    NotTeacher,
    NotStudent,
    CourseNotFound,
    CourseInactive,
    CourseFull,
    CourseNotStarted,
    CourseEnded,
    AlreadyEnrolled,
    NotEnrolled,
    InsufficientPayment,
    InvalidInput,
    InvalidTime,
    AlreadyCompleted,
    CertificateNotFound,
    TransferError,
    PSP34Error(PSP34Error),
    CourseIsFull,
    CourseInProgress,
    Unauthorized,
    NFTMintingFailed,
    PaymentFailed,
    RefundPeriodEnded,
    InvalidFeePercentage,
    NoRefundAvailable,
}

} // verus!
