use eduverse::{AccountId, Eduverse, Error, PSP34Error};

const COURSE_TITLE: &str = "Test Course";
const COURSE_DESC: &str = "This is a test course.";
const METADATA_HASH: &str = "hash123";
const MAX_STUDENTS: u32 = 10;
const PRICE: u128 = 100;

fn alice() -> AccountId {
    AccountId::from_bytes([0x01; 32])
}

fn bob() -> AccountId {
    AccountId::from_bytes([0x02; 32])
}

fn charlie() -> AccountId {
    AccountId::from_bytes([0x03; 32])
}

/// Helper to generate a string of a given length.
fn generate_string(len: usize) -> String {
    "a".repeat(len)
}

/// Enrolls as a caller would: check, settle the price, then record.
fn enroll_paying(
    contract: &mut Eduverse,
    student: AccountId,
    course_id: u32,
    now: u64,
    value: u128,
) -> Result<(), Error> {
    let settled = contract
        .enrollment_payment(student, course_id, now, value)
        .is_ok();
    contract.enroll(student, course_id, now, value, settled)
}

fn create(contract: &mut Eduverse, title: &str, description: &str, max: u32, hash: &str) -> u32 {
    contract
        .create_course(
            alice(),
            1000,
            String::from(title),
            String::from(description),
            max,
            2000,
            3000,
            PRICE,
            String::from(hash),
        )
        .expect("Course creation should succeed")
}

#[test]
fn test_create_course_invalid_title() {
    let mut contract = Eduverse::new(alice());
    let result = contract.create_course(
        alice(),
        1000,
        generate_string(101),
        String::from(COURSE_DESC),
        MAX_STUDENTS,
        2000,
        3000,
        PRICE,
        String::from(METADATA_HASH),
    );
    assert_eq!(result, Err(Error::InvalidInput));
}

#[test]
fn test_create_course_invalid_description() {
    let mut contract = Eduverse::new(alice());
    let result = contract.create_course(
        alice(),
        1000,
        String::from(COURSE_TITLE),
        generate_string(1001),
        MAX_STUDENTS,
        2000,
        3000,
        PRICE,
        String::from(METADATA_HASH),
    );
    assert_eq!(result, Err(Error::InvalidInput));
}

#[test]
fn test_create_course_invalid_time_start() {
    let mut contract = Eduverse::new(alice());
    let result = contract.create_course(
        alice(),
        1000,
        String::from(COURSE_TITLE),
        String::from(COURSE_DESC),
        MAX_STUDENTS,
        500,
        3000,
        PRICE,
        String::from(METADATA_HASH),
    );
    assert_eq!(result, Err(Error::InvalidTime));
}

#[test]
fn test_create_course_invalid_time_end() {
    let mut contract = Eduverse::new(alice());
    let result = contract.create_course(
        alice(),
        1000,
        String::from(COURSE_TITLE),
        String::from(COURSE_DESC),
        MAX_STUDENTS,
        2000,
        1500,
        PRICE,
        String::from(METADATA_HASH),
    );
    assert_eq!(result, Err(Error::InvalidTime));
}

#[test]
fn test_enroll_insufficient_payment() {
    let mut contract = Eduverse::new(alice());
    let course_id = create(
        &mut contract,
        "Insufficient Payment Course",
        "Test insufficient payment.",
        MAX_STUDENTS,
        "insuff_hash",
    );
    let enroll_result = enroll_paying(&mut contract, bob(), course_id, 1500, PRICE - 1);
    assert_eq!(enroll_result, Err(Error::InsufficientPayment));
}

#[test]
fn test_enroll_course_not_active() {
    let mut contract = Eduverse::new(alice());
    let course_id = create(
        &mut contract,
        "Inactive Course",
        "Test course inactive.",
        MAX_STUDENTS,
        "inactive_hash",
    );
    let update_result =
        contract.update_course(alice(), 1000, course_id, None, None, None, None, Some(false), None);
    assert!(update_result.is_ok());
    let enroll_result = enroll_paying(&mut contract, bob(), course_id, 1500, PRICE);
    assert_eq!(enroll_result, Err(Error::CourseNotActive));
}

#[test]
fn test_enroll_course_in_progress() {
    let mut contract = Eduverse::new(alice());
    let course_id = create(
        &mut contract,
        "In Progress Course",
        "Test course in progress.",
        MAX_STUDENTS,
        "inprog_hash",
    );
    let enroll_result = enroll_paying(&mut contract, bob(), course_id, 2100, PRICE);
    assert_eq!(enroll_result, Err(Error::CourseInProgress));
}

#[test]
fn test_already_enrolled() {
    let mut contract = Eduverse::new(alice());
    let course_id = create(
        &mut contract,
        "Double Enrollment Course",
        "Test already enrolled.",
        2,
        "double_hash",
    );
    let enroll_result = enroll_paying(&mut contract, bob(), course_id, 1500, PRICE);
    assert!(enroll_result.is_ok());
    let second_enroll = enroll_paying(&mut contract, bob(), course_id, 1500, PRICE);
    assert_eq!(second_enroll, Err(Error::AlreadyEnrolled));
}

#[test]
fn test_course_full() {
    let mut contract = Eduverse::new(alice());
    let course_id = create(&mut contract, "Full Course", "Test course full.", 1, "full_hash");
    let enroll_result = enroll_paying(&mut contract, bob(), course_id, 1500, PRICE);
    assert!(enroll_result.is_ok());
    let enroll_result_charlie = enroll_paying(&mut contract, charlie(), course_id, 1500, PRICE);
    assert_eq!(enroll_result_charlie, Err(Error::CourseIsFull));
}

#[test]
fn test_update_course_after_start() {
    let mut contract = Eduverse::new(alice());
    let course_id = create(
        &mut contract,
        "Update Timing Course",
        "Test update after start.",
        MAX_STUDENTS,
        "update_hash",
    );
    let update_result = contract.update_course(
        alice(),
        2100,
        course_id,
        Some(String::from("New Title")),
        None,
        None,
        None,
        None,
        None,
    );
    assert_eq!(update_result, Err(Error::CourseInProgress));
}

#[test]
fn test_complete_course_non_teacher() {
    let mut contract = Eduverse::new(alice());
    let course_id = create(
        &mut contract,
        "Non-Teacher Completion Course",
        "Test complete course by non-teacher.",
        MAX_STUDENTS,
        "nonteacher_hash",
    );
    let enroll_result = enroll_paying(&mut contract, bob(), course_id, 1500, PRICE);
    assert!(enroll_result.is_ok());
    let complete_result = contract.complete_course(bob(), 3500, course_id, bob());
    assert_eq!(complete_result, Err(Error::Unauthorized));
}

#[test]
fn test_complete_course_before_end() {
    let mut contract = Eduverse::new(alice());
    let course_id = create(
        &mut contract,
        "Early Completion Course",
        "Test complete course too early.",
        MAX_STUDENTS,
        "early_hash",
    );
    let enroll_result = enroll_paying(&mut contract, bob(), course_id, 1500, PRICE);
    assert!(enroll_result.is_ok());
    let complete_result = contract.complete_course(alice(), 2500, course_id, bob());
    assert_eq!(complete_result, Err(Error::CourseInProgress));
}

#[test]
fn test_transfer_rejection() {
    let mut contract = Eduverse::new(alice());
    let course_id = create(
        &mut contract,
        "Transfer Test Course",
        "Test NFT transfer rejection.",
        MAX_STUDENTS,
        "transfer_hash",
    );
    let enroll_result = enroll_paying(&mut contract, bob(), course_id, 1500, PRICE);
    assert!(enroll_result.is_ok());
    let complete_result = contract.complete_course(alice(), 3500, course_id, bob());
    assert!(complete_result.is_ok());
    let bob_certs = contract.get_student_certificate_vector(bob());
    assert!(!bob_certs.is_empty());
    let certificate_id = bob_certs[0];
    let transfer_result = contract.transfer(charlie(), certificate_id, Vec::new());
    match transfer_result {
        Err(PSP34Error::Custom(ref msg)) => {
            assert_eq!(msg, "Certificates cannot be transferred");
        }
        _ => panic!("Transfer should be rejected"),
    }
}
