use vstd::prelude::*;

use crate::certificate_id::certificate_id_spec;
use crate::eduverse::{certificate_lookup, courses_of, students_of, EduverseView};
use crate::types::{AccountId, CertificateInfo, Error};

verus! {

/// No course ever holds more students than its capacity: the bound is part
/// of the invariant that every call keeps.
pub proof fn lemma_enrolled_within_capacity(v: EduverseView, course_id: u32)
    requires
        v.wf(),
        v.has_course(course_id),
    ensures
        v.course(course_id).enrolled_count <= v.course(course_id).max_students,
{
    assert(v.courses[course_id as int].enrolled_count <= v.courses[course_id as int].max_students);
}

/// Once `student` has enrolled in a course, a second enrollment of the same
/// pair never succeeds (so changes nothing); while the course still has
/// room and has not started, it fails with `AlreadyEnrolled`.
pub proof fn lemma_second_enrollment_rejected(
    v: EduverseView,
    student: AccountId,
    course_id: u32,
    now: u64,
    value: u128,
    later: u64,
    later_value: u128,
)
    requires
        v.wf(),
        v.enroll_error(student, course_id, now, value) is None,
    ensures
        ({
            let w = v.after_enroll(student, course_id);
            &&& w.is_enrolled(student, course_id)
            &&& w.enroll_error(student, course_id, later, later_value) is Some
            &&& (later < w.course(course_id).start_time && w.course(course_id).enrolled_count
                < w.course(course_id).max_students) ==> w.enroll_error(
                student,
                course_id,
                later,
                later_value,
            ) == Some(Error::AlreadyEnrolled)
        }),
{
    let w = v.after_enroll(student, course_id);
    assert(w.enrollments[v.enrollments.len() as int] == (course_id, student));
}

/// Paying less than the price never enrolls.
pub proof fn lemma_underpayment_rejected(
    v: EduverseView,
    student: AccountId,
    course_id: u32,
    now: u64,
    value: u128,
)
    requires
        v.has_course(course_id),
        value < v.course(course_id).price,
    ensures
        v.enroll_error(student, course_id, now, value) is Some,
{
}

/// Completion before the course's end time is refused, whoever asks.
pub proof fn lemma_early_completion_rejected(
    v: EduverseView,
    caller: AccountId,
    now: u64,
    course_id: u32,
    student: AccountId,
)
    requires
        v.has_course(course_id),
        now < v.course(course_id).end_time,
    ensures
        v.complete_error(caller, now, course_id, student) is Some,
{
}

/// Only the course's teacher may mark completion, at any time.
pub proof fn lemma_non_teacher_completion_rejected(
    v: EduverseView,
    caller: AccountId,
    now: u64,
    course_id: u32,
    student: AccountId,
)
    requires
        v.has_course(course_id),
        caller != v.course(course_id).teacher,
    ensures
        v.complete_error(caller, now, course_id, student) == Some(Error::Unauthorized),
{
}

/// A successful completion adds exactly one certificate, held by the
/// student, recording the course, its title at that moment and the time;
/// the earlier certificates stay as they were.
pub proof fn lemma_completion_issues_one_certificate(
    v: EduverseView,
    course_id: u32,
    student: AccountId,
    now: u64,
    id: u128,
)
    requires
        !v.has_certificate(id),
    ensures
        ({
            let w = v.after_complete(course_id, student, now, id);
            let info = CertificateInfo {
                course_id,
                course_title: v.course(course_id).title,
                student,
                completion_date: now,
            };
            &&& w.certificates.len() == v.certificates.len() + 1
            &&& w.certificates.take(v.certificates.len() as int) == v.certificates
            &&& w.certificates.last() == (id, info)
            &&& certificate_lookup(w.certificates, id) == Some(info)
            &&& w.is_completed(student, course_id)
        }),
{
    let w = v.after_complete(course_id, student, now, id);
    assert(w.certificates.take(v.certificates.len() as int) =~= v.certificates);
    assert(w.completions[v.completions.len() as int] == (course_id, student));
}

/// The certificate identifier depends on the course id, the student and
/// the completion time alone: two completions that agree on them, from any
/// two states, derive the same identifier.
pub proof fn lemma_certificate_id_deterministic(
    v1: EduverseView,
    v2: EduverseView,
    course_id: u32,
    student: AccountId,
    now: u64,
)
    requires
        !v1.has_certificate(certificate_id_spec(course_id, student, now) as u128),
        !v2.has_certificate(certificate_id_spec(course_id, student, now) as u128),
    ensures
        v1.after_complete(course_id, student, now, certificate_id_spec(course_id, student, now) as u128).certificates.last().0
            == v2.after_complete(course_id, student, now, certificate_id_spec(course_id, student, now) as u128).certificates.last().0,
{
}

/// Once a course's start time is reached no update is accepted, whatever
/// fields it supplies, none included; the teacher gets `CourseInProgress`.
pub proof fn lemma_update_after_start_rejected(
    v: EduverseView,
    caller: AccountId,
    now: u64,
    course_id: u32,
    title: Option<String>,
    description: Option<String>,
    max_students: Option<u32>,
)
    requires
        v.has_course(course_id),
        now >= v.course(course_id).start_time,
    ensures
        v.update_error(caller, now, course_id, title, description, max_students) is Some,
        caller == v.course(course_id).teacher ==> v.update_error(
            caller,
            now,
            course_id,
            title,
            description,
            max_students,
        ) == Some(Error::CourseInProgress),
{
}

proof fn lemma_push_contains<T>(s: Seq<T>, x: T, y: T)
    ensures
        s.push(x).contains(y) <==> (s.contains(y) || x == y),
{
    let t = s.push(x);
    if t.contains(y) {
        let i = choose|i: int| 0 <= i < t.len() && t[i] == y;
        if i < s.len() {
            assert(s[i] == y);
        }
    }
    if s.contains(y) {
        let i = choose|i: int| 0 <= i < s.len() && s[i] == y;
        assert(t[i] == y);
    }
    if x == y {
        assert(t[s.len() as int] == y);
    }
}

proof fn lemma_courses_of_contains(s: Seq<(u32, AccountId)>, student: AccountId, course_id: u32)
    ensures
        courses_of(s, student).contains(course_id) <==> s.contains((course_id, student)),
    decreases s.len(),
{
    if s.len() > 0 {
        let init = s.drop_last();
        let x = s.last();
        lemma_courses_of_contains(init, student, course_id);
        assert(s =~= init.push(x));
        lemma_push_contains(init, x, (course_id, student));
        if x.1 == student {
            lemma_push_contains(courses_of(init, student), x.0, course_id);
        }
    }
}

proof fn lemma_students_of_contains(s: Seq<(u32, AccountId)>, student: AccountId, course_id: u32)
    ensures
        students_of(s, course_id).contains(student) <==> s.contains((course_id, student)),
    decreases s.len(),
{
    if s.len() > 0 {
        let init = s.drop_last();
        let x = s.last();
        lemma_students_of_contains(init, student, course_id);
        assert(s =~= init.push(x));
        lemma_push_contains(init, x, (course_id, student));
        if x.0 == course_id {
            lemma_push_contains(students_of(init, course_id), x.1, student);
        }
    }
}

/// The per-student and per-course enrollment indices always agree: a course
/// is among a student's courses exactly when the student is among that
/// course's students, exactly when the pair is enrolled.
pub proof fn lemma_enrollment_indices_agree(v: EduverseView, student: AccountId, course_id: u32)
    ensures
        courses_of(v.enrollments, student).contains(course_id) <==> students_of(
            v.enrollments,
            course_id,
        ).contains(student),
        courses_of(v.enrollments, student).contains(course_id) <==> v.is_enrolled(
            student,
            course_id,
        ),
{
    lemma_courses_of_contains(v.enrollments, student, course_id);
    lemma_students_of_contains(v.enrollments, student, course_id);
}

} // verus!
