use vstd::prelude::*;

use crate::certificate_id::{certificate_id, certificate_id_spec};
use crate::encoding::{decimal, decimal_bytes};
use vstd::utf8::encode_utf8;
use crate::types::{
    AccountId, CertificateInfo, Course, CourseCompleted, CourseCreated, CourseUpdated, Error,
    Event, PSP34Error, PSP34Transfer, StudentEnrolled,
};

verus! {

/// Longest accepted course title, in characters.
pub const MAX_TITLE_LEN: usize = 100;

/// Longest accepted course description, in characters.
pub const MAX_DESCRIPTION_LEN: usize = 1000;

/// A stored certificate attribute: token id, key, value.
pub type Attribute = (u128, Vec<u8>, Vec<u8>);

/// The course marketplace and its certificate store.
///
/// Courses are kept densely by id. The enrollment relation is kept as one
/// list of `(course, student)` pairs in enrollment order: the per-student and
/// per-course indices are both read off that list, so they always agree.
///
/// The fields are private: `new` establishes [`EduverseView::wf`] and every
/// method that changes the state keeps it, so every value a caller holds is
/// well formed.
pub struct Eduverse {
    course_counter: u32,
    courses: Vec<Course>,
    teacher_courses: Vec<(AccountId, u32)>,
    enrollments: Vec<(u32, AccountId)>,
    completions: Vec<(u32, AccountId)>,
    owner: AccountId,
    certificates: Vec<(u128, CertificateInfo)>,
    attributes: Vec<Attribute>,
    events: Vec<Event>,
}

/// The abstract state of an [`Eduverse`].
pub struct EduverseView {
    pub course_counter: u32,
    pub courses: Seq<Course>,
    pub teacher_courses: Seq<(AccountId, u32)>,
    pub enrollments: Seq<(u32, AccountId)>,
    pub completions: Seq<(u32, AccountId)>,
    pub owner: AccountId,
    pub certificates: Seq<(u128, CertificateInfo)>,
    pub attributes: Seq<(u128, Seq<u8>, Seq<u8>)>,
    pub events: Seq<Event>,
}

impl View for Eduverse {
    type V = EduverseView;

    closed spec fn view(&self) -> EduverseView {
        EduverseView {
            course_counter: self.course_counter,
            courses: self.courses@,
            teacher_courses: self.teacher_courses@,
            enrollments: self.enrollments@,
            completions: self.completions@,
            owner: self.owner,
            certificates: self.certificates@,
            attributes: self.attributes@.map_values(|a: Attribute| (a.0, a.1@, a.2@)),
            events: self.events@,
        }
    }
}

/// Attribute key of the course title snapshot.
pub open spec fn course_title_key() -> Seq<u8> {
    seq![99u8, 111, 117, 114, 115, 101, 95, 116, 105, 116, 108, 101]
}

/// Attribute key of the course id, as decimal text.
pub open spec fn course_id_key() -> Seq<u8> {
    seq![99u8, 111, 117, 114, 115, 101, 95, 105, 100]
}

/// Attribute key of the completion time, as decimal text.
pub open spec fn completion_date_key() -> Seq<u8> {
    seq![99u8, 111, 109, 112, 108, 101, 116, 105, 111, 110, 95, 100, 97, 116, 101]
}

pub fn course_title_key_bytes() -> (r: Vec<u8>)
    ensures
        r@ == course_title_key(),
{
    let r = vec![99u8, 111, 117, 114, 115, 101, 95, 116, 105, 116, 108, 101];
    assert(r@ =~= course_title_key());
    r
}

pub fn course_id_key_bytes() -> (r: Vec<u8>)
    ensures
        r@ == course_id_key(),
{
    let r = vec![99u8, 111, 117, 114, 115, 101, 95, 105, 100];
    assert(r@ =~= course_id_key());
    r
}

pub fn completion_date_key_bytes() -> (r: Vec<u8>)
    ensures
        r@ == completion_date_key(),
{
    let r = vec![99u8, 111, 109, 112, 108, 101, 116, 105, 111, 110, 95, 100, 97, 116, 101];
    assert(r@ =~= completion_date_key());
    r
}

/// Course ids of `teacher`, in creation order.
pub open spec fn courses_by(s: Seq<(AccountId, u32)>, teacher: AccountId) -> Seq<u32>
    decreases s.len(),
{
    if s.len() == 0 {
        Seq::empty()
    } else if s.last().0 == teacher {
        courses_by(s.drop_last(), teacher).push(s.last().1)
    } else {
        courses_by(s.drop_last(), teacher)
    }
}

/// Course ids that `student` enrolled in, in enrollment order.
pub open spec fn courses_of(s: Seq<(u32, AccountId)>, student: AccountId) -> Seq<u32>
    decreases s.len(),
{
    if s.len() == 0 {
        Seq::empty()
    } else if s.last().1 == student {
        courses_of(s.drop_last(), student).push(s.last().0)
    } else {
        courses_of(s.drop_last(), student)
    }
}

/// Students enrolled in `course_id`, in enrollment order.
pub open spec fn students_of(s: Seq<(u32, AccountId)>, course_id: u32) -> Seq<AccountId>
    decreases s.len(),
{
    if s.len() == 0 {
        Seq::empty()
    } else if s.last().0 == course_id {
        students_of(s.drop_last(), course_id).push(s.last().1)
    } else {
        students_of(s.drop_last(), course_id)
    }
}

/// Certificate ids held by `holder`, in issuance order.
pub open spec fn certificates_of(s: Seq<(u128, CertificateInfo)>, holder: AccountId) -> Seq<u128>
    decreases s.len(),
{
    if s.len() == 0 {
        Seq::empty()
    } else if s.last().1.student == holder {
        certificates_of(s.drop_last(), holder).push(s.last().0)
    } else {
        certificates_of(s.drop_last(), holder)
    }
}

/// The record of certificate `id`, the latest one stored under that id.
pub open spec fn certificate_lookup(s: Seq<(u128, CertificateInfo)>, id: u128) -> Option<CertificateInfo>
    decreases s.len(),
{
    if s.len() == 0 {
        None
    } else if s.last().0 == id {
        Some(s.last().1)
    } else {
        certificate_lookup(s.drop_last(), id)
    }
}

/// The value stored for attribute `key` of certificate `id`, the latest one
/// written.
pub open spec fn attribute_lookup(s: Seq<(u128, Seq<u8>, Seq<u8>)>, id: u128, key: Seq<u8>) -> Option<Seq<u8>>
    decreases s.len(),
{
    if s.len() == 0 {
        None
    } else if s.last().0 == id && s.last().1 == key {
        Some(s.last().2)
    } else {
        attribute_lookup(s.drop_last(), id, key)
    }
}

/// Whether a course title and description are within their length bounds.
pub open spec fn text_fits(title: Seq<char>, description: Seq<char>) -> bool {
    title.len() <= MAX_TITLE_LEN && description.len() <= MAX_DESCRIPTION_LEN
}

/// The first reason, if any, for which `create_course` rejects its input.
pub open spec fn create_error(
    title: Seq<char>,
    description: Seq<char>,
    start_time: u64,
    end_time: u64,
    now: u64,
) -> Option<Error> {
    if !text_fits(title, description) {
        Some(Error::InvalidInput)
    } else if start_time <= now || end_time <= start_time {
        Some(Error::InvalidTime)
    } else {
        None
    }
}

impl EduverseView {
    /// The structural invariant kept by every call.
    pub open spec fn wf(self) -> bool {
        &&& (self.courses.len() == self.course_counter || (self.course_counter == u32::MAX
            && self.courses.len() == u32::MAX as nat + 1))
        &&& forall|i: int|
            #![trigger self.courses[i]]
            0 <= i < self.courses.len() ==> {
                &&& self.courses[i].id == i
                &&& self.courses[i].enrolled_count <= self.courses[i].max_students
                &&& self.courses[i].start_time < self.courses[i].end_time
            }
        &&& forall|i: int|
            #![trigger self.enrollments[i]]
            0 <= i < self.enrollments.len() ==> (self.enrollments[i].0 as int)
                < self.courses.len()
        &&& forall|i: int, j: int|
            #![trigger self.enrollments[i], self.enrollments[j]]
            0 <= i < j < self.enrollments.len() ==> self.enrollments[i] != self.enrollments[j]
        &&& forall|i: int, j: int|
            #![trigger self.certificates[i], self.certificates[j]]
            0 <= i < j < self.certificates.len() ==> self.certificates[i].0
                != self.certificates[j].0
    }

    pub open spec fn has_course(self, course_id: u32) -> bool {
        (course_id as int) < self.courses.len()
    }

    pub open spec fn course(self, course_id: u32) -> Course {
        self.courses[course_id as int]
    }

    pub open spec fn is_enrolled(self, student: AccountId, course_id: u32) -> bool {
        self.enrollments.contains((course_id, student))
    }

    pub open spec fn is_completed(self, student: AccountId, course_id: u32) -> bool {
        self.completions.contains((course_id, student))
    }

    pub open spec fn has_certificate(self, id: u128) -> bool {
        certificate_lookup(self.certificates, id) is Some
    }

    /// The state after `caller` creates a course at `now` with valid input.
    pub open spec fn after_create(
        self,
        caller: AccountId,
        now: u64,
        title: String,
        description: String,
        max_students: u32,
        start_time: u64,
        end_time: u64,
        price: u128,
        metadata_hash: String,
    ) -> EduverseView {
        let id = self.course_counter;
        let course = Course {
            id,
            teacher: caller,
            title,
            description,
            max_students,
            enrolled_count: 0,
            start_time,
            end_time,
            price,
            active: true,
            metadata_hash,
            created_at: now,
        };
        EduverseView {
            course_counter: if id < u32::MAX { (id + 1) as u32 } else { id },
            courses: if (id as int) < self.courses.len() {
                self.courses.update(id as int, course)
            } else {
                self.courses.push(course)
            },
            teacher_courses: self.teacher_courses.push((caller, id)),
            events: self.events.push(
                Event::CourseCreated(CourseCreated { course_id: id, teacher: caller, title }),
            ),
            ..self
        }
    }

    /// The first reason, if any, for which `student` may not enroll in
    /// `course_id` at `now` paying `value`; checked in this order.
    pub open spec fn enroll_error(self, student: AccountId, course_id: u32, now: u64, value: u128) -> Option<Error> {
        if !self.has_course(course_id) {
            Some(Error::CourseNotFound)
        } else if !self.course(course_id).active {
            Some(Error::CourseNotActive)
        } else if now >= self.course(course_id).start_time {
            Some(Error::CourseInProgress)
        } else if self.course(course_id).enrolled_count >= self.course(course_id).max_students {
            Some(Error::CourseIsFull)
        } else if self.is_enrolled(student, course_id) {
            Some(Error::AlreadyEnrolled)
        } else if value < self.course(course_id).price {
            Some(Error::InsufficientPayment)
        } else {
            None
        }
    }

    /// The state after `student` enrolls in `course_id`, its price paid.
    pub open spec fn after_enroll(self, student: AccountId, course_id: u32) -> EduverseView {
        let c = self.course(course_id);
        EduverseView {
            courses: self.courses.update(
                course_id as int,
                Course { enrolled_count: (c.enrolled_count + 1) as u32, ..c },
            ),
            enrollments: self.enrollments.push((course_id, student)),
            events: self.events.push(
                Event::StudentEnrolled(StudentEnrolled { course_id, student, payment: c.price }),
            ),
            ..self
        }
    }

    /// The first reason, if any, for which `caller` may not apply an update
    /// to `course_id` at `now`; checked in this order.
    pub open spec fn update_error(
        self,
        caller: AccountId,
        now: u64,
        course_id: u32,
        title: Option<String>,
        description: Option<String>,
        max_students: Option<u32>,
    ) -> Option<Error> {
        if !self.has_course(course_id) {
            Some(Error::CourseNotFound)
        } else if caller != self.course(course_id).teacher {
            Some(Error::Unauthorized)
        } else if now >= self.course(course_id).start_time {
            Some(Error::CourseInProgress)
        } else if (title is Some && title->0@.len() > MAX_TITLE_LEN) || (description is Some
            && description->0@.len() > MAX_DESCRIPTION_LEN) || (max_students is Some
            && max_students->0 < self.course(course_id).enrolled_count) {
            Some(Error::InvalidInput)
        } else {
            None
        }
    }

    /// The state after `caller` updates `course_id`: each supplied field
    /// replaces the stored one, the others stay.
    pub open spec fn after_update(
        self,
        caller: AccountId,
        course_id: u32,
        title: Option<String>,
        description: Option<String>,
        max_students: Option<u32>,
        price: Option<u128>,
        active: Option<bool>,
        metadata_hash: Option<String>,
    ) -> EduverseView {
        let c = self.course(course_id);
        let updated = Course {
            title: if title is Some { title->0 } else { c.title },
            description: if description is Some { description->0 } else { c.description },
            max_students: if max_students is Some { max_students->0 } else { c.max_students },
            price: if price is Some { price->0 } else { c.price },
            active: if active is Some { active->0 } else { c.active },
            metadata_hash: if metadata_hash is Some { metadata_hash->0 } else { c.metadata_hash },
            ..c
        };
        EduverseView {
            courses: self.courses.update(course_id as int, updated),
            events: self.events.push(
                Event::CourseUpdated(CourseUpdated { course_id, teacher: caller }),
            ),
            ..self
        }
    }

    /// The first reason, if any, for which `caller` may not mark `student`
    /// as having completed `course_id` at `now`; checked in this order.
    pub open spec fn complete_error(self, caller: AccountId, now: u64, course_id: u32, student: AccountId) -> Option<Error> {
        if !self.has_course(course_id) {
            Some(Error::CourseNotFound)
        } else if caller != self.course(course_id).teacher {
            Some(Error::Unauthorized)
        } else if !self.is_enrolled(student, course_id) {
            Some(Error::NotEnrolled)
        } else if now < self.course(course_id).end_time {
            Some(Error::CourseInProgress)
        } else {
            None
        }
    }

    /// The state after `student` completes `course_id` at `now` and receives
    /// certificate `id`: the certificate, its three attributes, the
    /// completion mark and the two notifications are recorded.
    pub open spec fn after_complete(self, course_id: u32, student: AccountId, now: u64, id: u128) -> EduverseView {
        let title = self.course(course_id).title;
        let info = CertificateInfo { course_id, course_title: title, student, completion_date: now };
        EduverseView {
            completions: self.completions.push((course_id, student)),
            certificates: self.certificates.push((id, info)),
            attributes: self.attributes.push((id, course_title_key(), encode_utf8(title@))).push(
                (id, course_id_key(), decimal(course_id as nat)),
            ).push((id, completion_date_key(), decimal(now as nat))),
            events: self.events.push(
                Event::PSP34Transfer(PSP34Transfer { from: None, to: Some(student), id }),
            ).push(
                Event::CourseCompleted(CourseCompleted { course_id, student, certificate_id: id }),
            ),
            ..self
        }
    }
}

proof fn lemma_lookup_none(s: Seq<(u128, CertificateInfo)>, id: u128)
    requires
        certificate_lookup(s, id) is None,
    ensures
        forall|i: int| 0 <= i < s.len() ==> s[i].0 != id,
    decreases s.len(),
{
    if s.len() > 0 {
        lemma_lookup_none(s.drop_last(), id);
        assert forall|i: int| 0 <= i < s.len() implies s[i].0 != id by {
            if i < s.len() - 1 {
                assert(s[i] == s.drop_last()[i]);
            }
        }
    }
}

/// A copy of a byte vector.
fn copy_bytes(v: &Vec<u8>) -> (r: Vec<u8>)
    ensures
        r@ == v@,
{
    let mut r: Vec<u8> = Vec::new();
    let mut i: usize = 0;
    while i < v.len()
        invariant
            0 <= i <= v@.len(),
            r@ == v@.take(i as int),
        decreases v@.len() - i,
    {
        r.push(v[i]);
        proof {
            assert(v@.take(i as int + 1) =~= v@.take(i as int).push(v@[i as int]));
        }
        i = i + 1;
    }
    assert(v@.take(v@.len() as int) =~= v@);
    r
}

/// Whether two byte vectors hold the same bytes.
fn same_bytes(a: &Vec<u8>, b: &Vec<u8>) -> (r: bool)
    ensures
        r == (a@ == b@),
{
    if a.len() != b.len() {
        return false;
    }
    let mut i: usize = 0;
    while i < a.len()
        invariant
            0 <= i <= a@.len(),
            a@.len() == b@.len(),
            forall|j: int| 0 <= j < i ==> a@[j] == b@[j],
        decreases a@.len() - i,
    {
        if a[i] != b[i] {
            return false;
        }
        i = i + 1;
    }
    assert(a@ =~= b@);
    true
}

impl Eduverse {
    /// An empty marketplace owned by `owner`.
    pub fn new(owner: AccountId) -> (r: Eduverse)
        ensures
            r@.wf(),
            r@.course_counter == 0,
            r@.courses.len() == 0,
            r@.teacher_courses.len() == 0,
            r@.enrollments.len() == 0,
            r@.completions.len() == 0,
            r@.owner == owner,
            r@.certificates.len() == 0,
            r@.attributes.len() == 0,
            r@.events.len() == 0,
    {
        Eduverse {
            course_counter: 0,
            courses: Vec::new(),
            teacher_courses: Vec::new(),
            enrollments: Vec::new(),
            completions: Vec::new(),
            owner,
            certificates: Vec::new(),
            attributes: Vec::new(),
            events: Vec::new(),
        }
    }

    /// Lists a new course taught by `caller`, created at `now`.
    ///
    /// The id is the current counter value; the counter then advances, but
    /// stops at `u32::MAX`, after which each new course takes that last id.
    pub fn create_course(
        &mut self,
        caller: AccountId,
        now: u64,
        title: String,
        description: String,
        max_students: u32,
        start_time: u64,
        end_time: u64,
        price: u128,
        metadata_hash: String,
    ) -> (r: Result<u32, Error>)
        requires
            old(self)@.wf(),
        ensures
            final(self)@.wf(),
            match create_error(title@, description@, start_time, end_time, now) {
                Some(e) => r == Err::<u32, Error>(e) && final(self)@ == old(self)@,
                None => r == Ok::<u32, Error>(old(self)@.course_counter) && final(self)@
                    == old(self)@.after_create(
                    caller,
                    now,
                    title,
                    description,
                    max_students,
                    start_time,
                    end_time,
                    price,
                    metadata_hash,
                ),
            },
    {
        if title.as_str().unicode_len() > MAX_TITLE_LEN
            || description.as_str().unicode_len() > MAX_DESCRIPTION_LEN {
            return Err(Error::InvalidInput);
        }
        if start_time <= now || end_time <= start_time {
            return Err(Error::InvalidTime);
        }
        let ghost pre = self@;
        let course_id = self.course_counter;
        let course = Course {
            id: course_id,
            teacher: caller,
            title: title.clone(),
            description,
            max_students,
            enrolled_count: 0,
            start_time,
            end_time,
            price,
            active: true,
            metadata_hash,
            created_at: now,
        };
        if (course_id as usize) < self.courses.len() {
            self.courses.set(course_id as usize, course);
        } else {
            self.courses.push(course);
        }
        if self.course_counter < u32::MAX {
            self.course_counter = self.course_counter + 1;
        }
        self.teacher_courses.push((caller, course_id));
        self.events.push(Event::CourseCreated(CourseCreated { course_id, teacher: caller, title }));
        proof {
            assert(self@.courses =~= pre.after_create(caller, now, title, description, max_students, start_time, end_time, price, metadata_hash).courses);
        }
        Ok(course_id)
    }

    /// Whether `student` is enrolled in `course_id`.
    pub fn verify_enrollment(&self, student: AccountId, course_id: u32) -> (r: bool)
        ensures
            r == self@.is_enrolled(student, course_id),
    {
        let mut i: usize = 0;
        while i < self.enrollments.len()
            invariant
                0 <= i <= self.enrollments@.len(),
                forall|j: int| 0 <= j < i ==> self.enrollments@[j] != (course_id, student),
            decreases self.enrollments@.len() - i,
        {
            let e = &self.enrollments[i];
            if e.0 == course_id && e.1.same_as(&student) {
                assert(self.enrollments@[i as int] == (course_id, student));
                return true;
            }
            i = i + 1;
        }
        false
    }

    /// Checks whether `student` may enroll in `course_id` at `now` with
    /// `transferred_value` attached, and if so names the payment to settle:
    /// the teacher to pay and the course price.
    pub fn enrollment_payment(
        &self,
        student: AccountId,
        course_id: u32,
        now: u64,
        transferred_value: u128,
    ) -> (r: Result<(AccountId, u128), Error>)
        requires
            self@.wf(),
        ensures
            match self@.enroll_error(student, course_id, now, transferred_value) {
                Some(e) => r == Err::<(AccountId, u128), Error>(e),
                None => r == Ok::<(AccountId, u128), Error>(
                    (self@.course(course_id).teacher, self@.course(course_id).price),
                ),
            },
    {
        if course_id as usize >= self.courses.len() {
            return Err(Error::CourseNotFound);
        }
        let course = &self.courses[course_id as usize];
        if !course.active {
            return Err(Error::CourseNotActive);
        }
        if now >= course.start_time {
            return Err(Error::CourseInProgress);
        }
        if course.enrolled_count >= course.max_students {
            return Err(Error::CourseIsFull);
        }
        if self.verify_enrollment(student, course_id) {
            return Err(Error::AlreadyEnrolled);
        }
        if transferred_value < course.price {
            return Err(Error::InsufficientPayment);
        }
        Ok((course.teacher, course.price))
    }

    /// Enrolls `student` in `course_id` at `now`.
    ///
    /// The checks of [`Eduverse::enrollment_payment`] come first. Once they
    /// pass, the price must have been paid to the teacher:
    /// `payment_settled` reports whether that transfer went through, and
    /// when it did not the call fails with `PaymentFailed` and changes
    /// nothing.
    pub fn enroll(
        &mut self,
        student: AccountId,
        course_id: u32,
        now: u64,
        transferred_value: u128,
        payment_settled: bool,
    ) -> (r: Result<(), Error>)
        requires
            old(self)@.wf(),
        ensures
            final(self)@.wf(),
            match old(self)@.enroll_error(student, course_id, now, transferred_value) {
                Some(e) => r == Err::<(), Error>(e) && final(self)@ == old(self)@,
                None => if payment_settled {
                    r == Ok::<(), Error>(()) && final(self)@ == old(self)@.after_enroll(student, course_id)
                        && final(self)@.is_enrolled(student, course_id)
                } else {
                    r == Err::<(), Error>(Error::PaymentFailed) && final(self)@ == old(self)@
                },
            },
    {
        match self.enrollment_payment(student, course_id, now, transferred_value) {
            Err(e) => {
                return Err(e);
            },
            Ok(_) => {},
        }
        if !payment_settled {
            return Err(Error::PaymentFailed);
        }
        let ghost pre = self@;
        let mut course = self.courses[course_id as usize].copy();
        let price = course.price;
        course.enrolled_count = course.enrolled_count + 1;
        self.courses.set(course_id as usize, course);
        self.enrollments.push((course_id, student));
        self.events.push(Event::StudentEnrolled(StudentEnrolled { course_id, student, payment: price }));
        proof {
            let post = pre.after_enroll(student, course_id);
            assert(self@.courses =~= post.courses);
            assert(forall|i: int| 0 <= i < pre.enrollments.len() ==> pre.enrollments[i] != (course_id, student));
            assert(self@.enrollments[pre.enrollments.len() as int] == (course_id, student));
        }
        Ok(())
    }

    /// Changes the supplied fields of `course_id`, on behalf of `caller` at
    /// `now`. Only the teacher may update, and only before the start time.
    /// A title or description over its bound, or a capacity below the
    /// current enrollment, rejects the whole update.
    pub fn update_course(
        &mut self,
        caller: AccountId,
        now: u64,
        course_id: u32,
        title: Option<String>,
        description: Option<String>,
        max_students: Option<u32>,
        price: Option<u128>,
        active: Option<bool>,
        metadata_hash: Option<String>,
    ) -> (r: Result<(), Error>)
        requires
            old(self)@.wf(),
        ensures
            final(self)@.wf(),
            match old(self)@.update_error(caller, now, course_id, title, description, max_students) {
                Some(e) => r == Err::<(), Error>(e) && final(self)@ == old(self)@,
                None => r == Ok::<(), Error>(()) && final(self)@ == old(self)@.after_update(
                    caller,
                    course_id,
                    title,
                    description,
                    max_students,
                    price,
                    active,
                    metadata_hash,
                ),
            },
    {
        if course_id as usize >= self.courses.len() {
            return Err(Error::CourseNotFound);
        }
        let mut course = self.courses[course_id as usize].copy();
        if !caller.same_as(&course.teacher) {
            return Err(Error::Unauthorized);
        }
        if now >= course.start_time {
            return Err(Error::CourseInProgress);
        }
        let ghost pre = self@;
        let ghost (t0, d0, m0, p0, a0, h0) = (title, description, max_students, price, active, metadata_hash);
        if let Some(new_title) = title {
            if new_title.as_str().unicode_len() > MAX_TITLE_LEN {
                return Err(Error::InvalidInput);
            }
            course.title = new_title;
        }
        if let Some(new_description) = description {
            if new_description.as_str().unicode_len() > MAX_DESCRIPTION_LEN {
                return Err(Error::InvalidInput);
            }
            course.description = new_description;
        }
        if let Some(new_max) = max_students {
            if new_max < course.enrolled_count {
                return Err(Error::InvalidInput);
            }
            course.max_students = new_max;
        }
        if let Some(new_price) = price {
            course.price = new_price;
        }
        if let Some(new_active) = active {
            course.active = new_active;
        }
        if let Some(new_hash) = metadata_hash {
            course.metadata_hash = new_hash;
        }
        self.courses.set(course_id as usize, course);
        self.events.push(Event::CourseUpdated(CourseUpdated { course_id, teacher: caller }));
        proof {
            let post = pre.after_update(caller, course_id, t0, d0, m0, p0, a0, h0);
            assert(self@.courses =~= post.courses);
        }
        Ok(())
    }

    /// The position of certificate `id` in the store, the latest one stored
    /// under that id.
    fn certificate_index(&self, id: u128) -> (r: Option<usize>)
        ensures
            match r {
                Some(i) => i < self.certificates@.len() && self.certificates@[i as int].0 == id
                    && certificate_lookup(self.certificates@, id) == Some(
                    self.certificates@[i as int].1,
                ),
                None => certificate_lookup(self.certificates@, id) is None,
            },
    {
        let mut i: usize = self.certificates.len();
        assert(self.certificates@.take(i as int) =~= self.certificates@);
        while i > 0
            invariant
                0 <= i <= self.certificates@.len(),
                certificate_lookup(self.certificates@, id) == certificate_lookup(
                    self.certificates@.take(i as int),
                    id,
                ),
            decreases i,
        {
            let ghost s = self.certificates@.take(i as int);
            assert(s.drop_last() =~= self.certificates@.take(i - 1));
            if self.certificates[i - 1].0 == id {
                return Some(i - 1);
            }
            i = i - 1;
        }
        None
    }

    /// Issues certificate `id` to `to`: stores its record and three
    /// attributes, and records the mint notification. Fails with
    /// `NFTMintingFailed`, changing nothing, when `id` is already taken.
    fn mint_certificate(&mut self, to: AccountId, id: u128, certificate: CertificateInfo) -> (r: Result<(), Error>)
        requires
            old(self)@.wf(),
            certificate.student == to,
        ensures
            final(self)@.wf(),
            old(self)@.has_certificate(id) ==> r == Err::<(), Error>(Error::NFTMintingFailed)
                && final(self)@ == old(self)@,
            !old(self)@.has_certificate(id) ==> r == Ok::<(), Error>(()) && final(self)@
                == (EduverseView {
                certificates: old(self)@.certificates.push((id, certificate)),
                attributes: old(self)@.attributes.push(
                    (id, course_title_key(), encode_utf8(certificate.course_title@)),
                ).push((id, course_id_key(), decimal(certificate.course_id as nat))).push(
                    (id, completion_date_key(), decimal(certificate.completion_date as nat)),
                ),
                events: old(self)@.events.push(
                    Event::PSP34Transfer(PSP34Transfer { from: None, to: Some(to), id }),
                ),
                ..old(self)@
            }),
    {
        if self.certificate_index(id).is_some() {
            return Err(Error::NFTMintingFailed);
        }
        proof {
            lemma_lookup_none(self.certificates@, id);
        }
        let ghost pre = self@;
        let title_bytes = certificate.course_title.as_str().as_bytes_vec();
        let course_id_text = decimal_bytes(certificate.course_id as u64);
        let date_text = decimal_bytes(certificate.completion_date);
        self.attributes.push((id, course_title_key_bytes(), title_bytes));
        self.attributes.push((id, course_id_key_bytes(), course_id_text));
        self.attributes.push((id, completion_date_key_bytes(), date_text));
        self.certificates.push((id, certificate));
        self.events.push(Event::PSP34Transfer(PSP34Transfer { from: None, to: Some(to), id }));
        proof {
            assert(self@.attributes =~= pre.attributes.push(
                (id, course_title_key(), encode_utf8(certificate.course_title@)),
            ).push((id, course_id_key(), decimal(certificate.course_id as nat))).push(
                (id, completion_date_key(), decimal(certificate.completion_date as nat)),
            ));
        }
        Ok(())
    }

    /// Marks `student` as having completed `course_id`, on behalf of
    /// `caller` at `now`, and issues certificate `certificate_id` to the
    /// student. Nothing is recorded unless the certificate is issued.
    pub fn complete_course_with_certificate_id(
        &mut self,
        caller: AccountId,
        now: u64,
        course_id: u32,
        student: AccountId,
        certificate_id: u128,
    ) -> (r: Result<(), Error>)
        requires
            old(self)@.wf(),
        ensures
            final(self)@.wf(),
            match old(self)@.complete_error(caller, now, course_id, student) {
                Some(e) => r == Err::<(), Error>(e) && final(self)@ == old(self)@,
                None => if old(self)@.has_certificate(certificate_id) {
                    r == Err::<(), Error>(Error::NFTMintingFailed) && final(self)@ == old(self)@
                } else {
                    r == Ok::<(), Error>(()) && final(self)@ == old(self)@.after_complete(
                        course_id,
                        student,
                        now,
                        certificate_id,
                    )
                        && final(self)@.is_completed(student, course_id)
                },
            },
    {
        if course_id as usize >= self.courses.len() {
            return Err(Error::CourseNotFound);
        }
        let course = &self.courses[course_id as usize];
        if !caller.same_as(&course.teacher) {
            return Err(Error::Unauthorized);
        }
        if !self.verify_enrollment(student, course_id) {
            return Err(Error::NotEnrolled);
        }
        if now < course.end_time {
            return Err(Error::CourseInProgress);
        }
        let certificate = CertificateInfo {
            course_id,
            course_title: course.title.clone(),
            student,
            completion_date: now,
        };
        match self.mint_certificate(student, certificate_id, certificate) {
            Err(e) => {
                return Err(e);
            },
            Ok(()) => {},
        }
        let ghost mid = self@;
        self.completions.push((course_id, student));
        self.events.push(
            Event::CourseCompleted(CourseCompleted { course_id, student, certificate_id }),
        );
        assert(self@.completions[mid.completions.len() as int] == (course_id, student));
        assert(self@.courses == mid.courses && self@.enrollments == mid.enrollments
            && self@.certificates == mid.certificates && self@.course_counter == mid.course_counter);
        Ok(())
    }

    /// Marks `student` as having completed `course_id`, on behalf of
    /// `caller` at `now`, and issues the student a certificate whose id is
    /// derived from the course id, the student and `now`.
    pub fn complete_course(&mut self, caller: AccountId, now: u64, course_id: u32, student: AccountId) -> (r: Result<(), Error>)
        requires
            old(self)@.wf(),
        ensures
            final(self)@.wf(),
            ({
                let id = certificate_id_spec(course_id, student, now) as u128;
                match old(self)@.complete_error(caller, now, course_id, student) {
                    Some(e) => r == Err::<(), Error>(e) && final(self)@ == old(self)@,
                    None => if old(self)@.has_certificate(id) {
                        r == Err::<(), Error>(Error::NFTMintingFailed) && final(self)@ == old(self)@
                    } else {
                        r == Ok::<(), Error>(()) && final(self)@ == old(self)@.after_complete(
                            course_id,
                            student,
                            now,
                            id,
                        )
                    },
                }
            }),
    {
        let id = certificate_id(course_id, &student, now);
        self.complete_course_with_certificate_id(caller, now, course_id, student, id)
    }

    /// Whether `student` has been marked as having completed `course_id`.
    pub fn verify_completion(&self, student: AccountId, course_id: u32) -> (r: bool)
        ensures
            r == self@.is_completed(student, course_id),
    {
        let mut i: usize = 0;
        while i < self.completions.len()
            invariant
                0 <= i <= self.completions@.len(),
                forall|j: int| 0 <= j < i ==> self.completions@[j] != (course_id, student),
            decreases self.completions@.len() - i,
        {
            let e = &self.completions[i];
            if e.0 == course_id && e.1.same_as(&student) {
                assert(self.completions@[i as int] == (course_id, student));
                return true;
            }
            i = i + 1;
        }
        false
    }

    /// The course with id `course_id`, if there is one.
    pub fn get_course(&self, course_id: u32) -> (r: Option<Course>)
        ensures
            r == if self@.has_course(course_id) {
                Some(self@.course(course_id))
            } else {
                None
            },
    {
        if (course_id as usize) < self.courses.len() {
            Some(self.courses[course_id as usize].copy())
        } else {
            None
        }
    }

    /// The courses `student` enrolled in, in enrollment order.
    pub fn get_student_courses(&self, student: AccountId) -> (r: Vec<u32>)
        ensures
            r@ == courses_of(self@.enrollments, student),
    {
        let mut r: Vec<u32> = Vec::new();
        let mut i: usize = 0;
        while i < self.enrollments.len()
            invariant
                0 <= i <= self.enrollments@.len(),
                r@ == courses_of(self.enrollments@.take(i as int), student),
            decreases self.enrollments@.len() - i,
        {
            let ghost s = self.enrollments@.take(i as int + 1);
            assert(s.drop_last() =~= self.enrollments@.take(i as int));
            let e = &self.enrollments[i];
            if e.1.same_as(&student) {
                r.push(e.0);
            }
            i = i + 1;
        }
        assert(self.enrollments@.take(i as int) =~= self.enrollments@);
        r
    }

    /// The students enrolled in `course_id`, in enrollment order.
    pub fn get_course_students(&self, course_id: u32) -> (r: Vec<AccountId>)
        ensures
            r@ == students_of(self@.enrollments, course_id),
    {
        let mut r: Vec<AccountId> = Vec::new();
        let mut i: usize = 0;
        while i < self.enrollments.len()
            invariant
                0 <= i <= self.enrollments@.len(),
                r@ == students_of(self.enrollments@.take(i as int), course_id),
            decreases self.enrollments@.len() - i,
        {
            let ghost s = self.enrollments@.take(i as int + 1);
            assert(s.drop_last() =~= self.enrollments@.take(i as int));
            let e = &self.enrollments[i];
            if e.0 == course_id {
                r.push(e.1);
            }
            i = i + 1;
        }
        assert(self.enrollments@.take(i as int) =~= self.enrollments@);
        r
    }

    /// The courses created by `teacher`, in creation order.
    pub fn get_teacher_courses(&self, teacher: AccountId) -> (r: Vec<u32>)
        ensures
            r@ == courses_by(self@.teacher_courses, teacher),
    {
        let mut r: Vec<u32> = Vec::new();
        let mut i: usize = 0;
        while i < self.teacher_courses.len()
            invariant
                0 <= i <= self.teacher_courses@.len(),
                r@ == courses_by(self.teacher_courses@.take(i as int), teacher),
            decreases self.teacher_courses@.len() - i,
        {
            let ghost s = self.teacher_courses@.take(i as int + 1);
            assert(s.drop_last() =~= self.teacher_courses@.take(i as int));
            let e = &self.teacher_courses[i];
            if e.0.same_as(&teacher) {
                r.push(e.1);
            }
            i = i + 1;
        }
        assert(self.teacher_courses@.take(i as int) =~= self.teacher_courses@);
        r
    }

    /// The certificates held by `student`, in issuance order.
    pub fn get_student_certificate_vector(&self, student: AccountId) -> (r: Vec<u128>)
        ensures
            r@ == certificates_of(self@.certificates, student),
    {
        let mut r: Vec<u128> = Vec::new();
        let mut i: usize = 0;
        while i < self.certificates.len()
            invariant
                0 <= i <= self.certificates@.len(),
                r@ == certificates_of(self.certificates@.take(i as int), student),
            decreases self.certificates@.len() - i,
        {
            let ghost s = self.certificates@.take(i as int + 1);
            assert(s.drop_last() =~= self.certificates@.take(i as int));
            let e = &self.certificates[i];
            if e.1.student.same_as(&student) {
                r.push(e.0);
            }
            i = i + 1;
        }
        assert(self.certificates@.take(i as int) =~= self.certificates@);
        r
    }

    /// The courses with ids below the counter, in id order.
    pub fn get_courses(&self) -> (r: Vec<Course>)
        requires
            self@.wf(),
        ensures
            r@ == self@.courses.take(self@.course_counter as int),
    {
        let mut r: Vec<Course> = Vec::new();
        let mut i: u32 = 0;
        while i < self.course_counter
            invariant
                0 <= i <= self.course_counter,
                self.course_counter <= self.courses@.len(),
                r@ == self.courses@.take(i as int),
            decreases self.course_counter - i,
        {
            r.push(self.courses[i as usize].copy());
            proof {
                assert(self.courses@.take(i as int + 1) =~= self.courses@.take(i as int).push(
                    self.courses@[i as int],
                ));
            }
            i = i + 1;
        }
        r
    }

    /// The value of attribute `key` of certificate `id`, if it was set.
    pub fn get_certificate_attribute(&self, id: u128, key: Vec<u8>) -> (r: Option<Vec<u8>>)
        ensures
            match r {
                Some(v) => attribute_lookup(self@.attributes, id, key@) == Some(v@),
                None => attribute_lookup(self@.attributes, id, key@) is None,
            },
    {
        let ghost view = self@.attributes;
        let mut i: usize = self.attributes.len();
        assert(view.take(i as int) =~= view);
        while i > 0
            invariant
                0 <= i <= self.attributes@.len(),
                view == self@.attributes,
                attribute_lookup(view, id, key@) == attribute_lookup(view.take(i as int), id, key@),
            decreases i,
        {
            assert(view.take(i as int).drop_last() =~= view.take(i - 1));
            let a = &self.attributes[i - 1];
            if a.0 == id && same_bytes(&a.1, &key) {
                return Some(copy_bytes(&a.2));
            }
            i = i - 1;
        }
        None
    }

    /// The record of certificate `id`; `CertificateNotFound` if none was
    /// issued.
    pub fn verify_certificate(&self, id: u128) -> (r: Result<CertificateInfo, Error>)
        ensures
            match certificate_lookup(self@.certificates, id) {
                Some(info) => r == Ok::<CertificateInfo, Error>(info),
                None => r == Err::<CertificateInfo, Error>(Error::CertificateNotFound),
            },
    {
        match self.certificate_index(id) {
            Some(i) => Ok(self.certificates[i].1.copy()),
            None => Err(Error::CertificateNotFound),
        }
    }

    /// The number of certificates held by `owner`, saturated at `u32::MAX`.
    pub fn balance_of(&self, owner: AccountId) -> (r: u32)
        ensures
            r as int == if certificates_of(self@.certificates, owner).len() < u32::MAX {
                certificates_of(self@.certificates, owner).len() as int
            } else {
                u32::MAX as int
            },
    {
        let held = self.get_student_certificate_vector(owner);
        if held.len() < u32::MAX as usize {
            held.len() as u32
        } else {
            u32::MAX
        }
    }

    /// The holder of certificate `id`, if it was issued.
    pub fn owner_of(&self, id: u128) -> (r: Option<AccountId>)
        ensures
            r == match certificate_lookup(self@.certificates, id) {
                Some(info) => Some(info.student),
                None => None::<AccountId>,
            },
    {
        match self.certificate_index(id) {
            Some(i) => Some(self.certificates[i].1.student),
            None => None,
        }
    }

    /// Certificates are a permanent record of achievement: every transfer
    /// is refused, whoever asks, and nothing changes.
    pub fn transfer(&mut self, _to: AccountId, _id: u128, _data: Vec<u8>) -> (r: Result<(), PSP34Error>)
        ensures
            final(self)@ == old(self)@,
            r matches Err(PSP34Error::Custom(msg)) && msg@ == "Certificates cannot be transferred"@,
    {
        Err(PSP34Error::Custom(String::from_str("Certificates cannot be transferred")))
    }

    /// The number of certificates issued.
    pub fn total_supply(&self) -> (r: u128)
        ensures
            r == self@.certificates.len(),
    {
        self.certificates.len() as u128
    }

    /// Hands out the notifications recorded since the last call, oldest
    /// first, and forgets them.
    pub fn take_events(&mut self) -> (r: Vec<Event>)
        ensures
            r@ == old(self)@.events,
            final(self)@ == (EduverseView { events: Seq::empty(), ..old(self)@ }),
    {
        let mut taken: Vec<Event> = Vec::new();
        std::mem::swap(&mut taken, &mut self.events);
        taken
    }
}

} // verus!
