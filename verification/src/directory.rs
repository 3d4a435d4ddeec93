//! The directory store: students, staff users and groups.
//!
//! The roll-call engine treats these records as immutable-for-its-purposes
//! lookups; the directory itself supports the plain CRUD the service offers.

use vstd::prelude::*;

use crate::errors::RollCallError;
use crate::text::{trimmed, trimmed_len};

verus! {

/// A student record. `id` is the school-issued primary key; `card_uid` is
/// the optional alternate badge identity used by scanners.
pub struct Student {
    pub id: String,
    pub card_uid: Option<String>,
    pub names: String,
    pub paternal_last_name: String,
    pub maternal_last_name: Option<String>,
    pub birth_date: String,
    pub major: String,
    pub group: String,
    pub blood_type: Option<String>,
    pub allergies: Option<String>,
    pub chronic_diseases: Option<String>,
    pub personal_phone: Option<String>,
    pub primary_guardian_phone: Option<String>,
    pub emergency_phone: Option<String>,
}

impl Clone for Student {
    fn clone(&self) -> (r: Self)
        ensures
            r == *self,
    {
        let r = Student {
            id: self.id.clone(),
            card_uid: self.card_uid.clone(),
            names: self.names.clone(),
            paternal_last_name: self.paternal_last_name.clone(),
            maternal_last_name: self.maternal_last_name.clone(),
            birth_date: self.birth_date.clone(),
            major: self.major.clone(),
            group: self.group.clone(),
            blood_type: self.blood_type.clone(),
            allergies: self.allergies.clone(),
            chronic_diseases: self.chronic_diseases.clone(),
            personal_phone: self.personal_phone.clone(),
            primary_guardian_phone: self.primary_guardian_phone.clone(),
            emergency_phone: self.emergency_phone.clone(),
        };
        r
    }
}

/// A staff member. `color` is a UI affinity tag shown on the roll-call board.
pub struct User {
    pub id: i64,
    pub username: String,
    pub display_name: String,
    pub password_hash: String,
    pub role: String,
    pub color: Option<String>,
    pub phone_number: Option<String>,
}

impl Clone for User {
    fn clone(&self) -> (r: Self)
        ensures
            r == *self,
    {
        let r = User {
            id: self.id,
            username: self.username.clone(),
            display_name: self.display_name.clone(),
            password_hash: self.password_hash.clone(),
            role: self.role.clone(),
            color: self.color.clone(),
            phone_number: self.phone_number.clone(),
        };
        r
    }
}

/// A class group.
pub struct Group {
    pub id: i64,
    pub name: String,
    pub description: Option<String>,
}

impl Clone for Group {
    fn clone(&self) -> (r: Self)
        ensures
            r == *self,
    {
        let r = Group {
            id: self.id,
            name: self.name.clone(),
            description: self.description.clone(),
        };
        r
    }
}

/// Request to add a student to the directory.
pub struct CreateStudentRequest {
    pub id: String,
    pub card_uid: Option<String>,
    pub names: String,
    pub paternal_last_name: String,
    pub maternal_last_name: Option<String>,
    pub birth_date: String,
    pub major: String,
    pub group: String,
    pub blood_type: Option<String>,
    pub allergies: Option<String>,
    pub chronic_diseases: Option<String>,
    pub personal_phone: Option<String>,
    pub primary_guardian_phone: Option<String>,
    pub emergency_phone: Option<String>,
}

impl CreateStudentRequest {
    /// The student record this request describes.
    pub open spec fn as_student(self) -> Student {
        Student {
            id: self.id,
            card_uid: self.card_uid,
            names: self.names,
            paternal_last_name: self.paternal_last_name,
            maternal_last_name: self.maternal_last_name,
            birth_date: self.birth_date,
            major: self.major,
            group: self.group,
            blood_type: self.blood_type,
            allergies: self.allergies,
            chronic_diseases: self.chronic_diseases,
            personal_phone: self.personal_phone,
            primary_guardian_phone: self.primary_guardian_phone,
            emergency_phone: self.emergency_phone,
        }
    }
}

/// Request to replace every display field of a student. Identity (`id`,
/// `card_uid`) is not part of it.
pub struct UpdateStudentRequest {
    pub names: String,
    pub paternal_last_name: String,
    pub maternal_last_name: Option<String>,
    pub birth_date: String,
    pub major: String,
    pub group: String,
    pub blood_type: Option<String>,
    pub allergies: Option<String>,
    pub chronic_diseases: Option<String>,
    pub personal_phone: Option<String>,
    pub primary_guardian_phone: Option<String>,
    pub emergency_phone: Option<String>,
}

impl UpdateStudentRequest {
    /// The record that results from applying this request to `row`.
    pub open spec fn applied_to(self, row: Student) -> Student {
        Student {
            id: row.id,
            card_uid: row.card_uid,
            names: self.names,
            paternal_last_name: self.paternal_last_name,
            maternal_last_name: self.maternal_last_name,
            birth_date: self.birth_date,
            major: self.major,
            group: self.group,
            blood_type: self.blood_type,
            allergies: self.allergies,
            chronic_diseases: self.chronic_diseases,
            personal_phone: self.personal_phone,
            primary_guardian_phone: self.primary_guardian_phone,
            emergency_phone: self.emergency_phone,
        }
    }
}

/// Request to move a student to another group.
pub struct UpdateStudentGroupRequest {
    pub group: String,
}

/// Request to create a staff user. The caller hashes the password; the
/// directory never sees plain credentials.
pub struct CreateUserRequest {
    pub username: String,
    pub display_name: String,
    pub role: String,
    pub color: Option<String>,
    pub phone_number: Option<String>,
}

/// Request to create a class group.
pub struct CreateGroupRequest {
    pub name: String,
    pub description: Option<String>,
}

/// Does some student in `s` carry `key` as primary id?
pub open spec fn has_student_id(s: Seq<Student>, key: Seq<char>) -> bool {
    exists|i: int| 0 <= i < s.len() && s[i].id@ == key
}

/// Does some student in `s` carry `key` as alternate card UID?
pub open spec fn has_card_uid(s: Seq<Student>, key: Seq<char>) -> bool {
    exists|i: int| 0 <= i < s.len() && (#[trigger] s[i].card_uid matches Some(u) && u@ == key)
}

/// Does some user in `s` have the numeric id `id`?
pub open spec fn has_user_id(s: Seq<User>, id: i64) -> bool {
    exists|i: int| 0 <= i < s.len() && s[i].id == id
}

/// Does some user in `s` have this username?
pub open spec fn has_username(s: Seq<User>, key: Seq<char>) -> bool {
    exists|i: int| 0 <= i < s.len() && s[i].username@ == key
}

/// The directory store, with identity kept consistent: primary student ids
/// are unique, as are user ids, usernames and group ids.
pub struct Directory {
    pub students: Vec<Student>,
    pub users: Vec<User>,
    pub groups: Vec<Group>,
    pub next_user_id: i64,
    pub next_group_id: i64,
}

impl Directory {
    pub open spec fn wf(self) -> bool {
        &&& forall|i: int, j: int|
            0 <= i < j < self.students@.len() ==> self.students@[i].id@ != self.students@[j].id@
        &&& forall|i: int, j: int|
            0 <= i < j < self.users@.len() ==> self.users@[i].id != self.users@[j].id
        &&& forall|i: int, j: int|
            0 <= i < j < self.users@.len() ==> self.users@[i].username@
                != self.users@[j].username@
        &&& forall|i: int| 0 <= i < self.users@.len() ==> self.users@[i].id < self.next_user_id
        &&& forall|i: int, j: int|
            0 <= i < j < self.groups@.len() ==> self.groups@[i].id != self.groups@[j].id
        &&& forall|i: int| 0 <= i < self.groups@.len() ==> self.groups@[i].id < self.next_group_id
    }

    /// An empty directory.
    pub fn new() -> (r: Directory)
        ensures
            r.wf(),
            r.students@.len() == 0,
            r.users@.len() == 0,
            r.groups@.len() == 0,
    {
        Directory {
            students: Vec::new(),
            users: Vec::new(),
            groups: Vec::new(),
            next_user_id: 1,
            next_group_id: 1,
        }
    }

    /// Look a student up by primary id.
    pub fn get_student(&self, id: &String) -> (r: Result<Student, RollCallError>)
        ensures
            r is Ok <==> has_student_id(self.students@, id@),
            r matches Ok(s) ==> s.id@ == id@ && self.students@.contains(s),
            r is Err ==> r == Err::<Student, RollCallError>(RollCallError::NotFound),
    {
        let n: usize = self.students.len();
        for i in 0..n
            invariant
                n == self.students@.len(),
                forall|k: int| 0 <= k < i ==> self.students@[k].id@ != id@,
        {
            if self.students[i].id == *id {
                let found = self.students[i].clone();
                return Ok(found);
            }
        }
        Err(RollCallError::NotFound)
    }

    /// All students, in directory order.
    pub fn get_all_students(&self) -> (r: Vec<Student>)
        ensures
            r@ == self.students@,
    {
        let mut out: Vec<Student> = Vec::new();
        let n: usize = self.students.len();
        for i in 0..n
            invariant
                n == self.students@.len(),
                out@ == self.students@.subrange(0, i as int),
        {
            out.push(self.students[i].clone());
            assert(out@ =~= self.students@.subrange(0, i + 1 as int));
        }
        proof {
            assert(self.students@.subrange(0, n as int) =~= self.students@);
        }
        out
    }

    /// Resolve a scanned identity: primary id first, then alternate card UID.
    pub fn resolve_student(&self, key: &String) -> (r: Result<Student, RollCallError>)
        ensures
            r is Ok <==> has_student_id(self.students@, key@) || has_card_uid(
                self.students@,
                key@,
            ),
            has_student_id(self.students@, key@) ==> (r matches Ok(s) && s.id@ == key@
                && self.students@.contains(s)),
            !has_student_id(self.students@, key@) ==> (r matches Ok(s) ==> self.students@.contains(
                s,
            ) && (s.card_uid matches Some(u) && u@ == key@)),
            r is Err ==> r == Err::<Student, RollCallError>(RollCallError::NotFound),
    {
        match self.get_student(key) {
            Ok(s) => Ok(s),
            Err(_) => {
                let n: usize = self.students.len();
                for i in 0..n
                    invariant
                        n == self.students@.len(),
                        !has_student_id(self.students@, key@),
                        forall|k: int|
                            0 <= k < i ==> !(#[trigger] self.students@[k].card_uid matches Some(u)
                                && u@ == key@),
                {
                    match &self.students[i].card_uid {
                        Some(uid) => {
                            if *uid == *key {
                                let found = self.students[i].clone();
                                return Ok(found);
                            }
                        },
                        None => {},
                    }
                }
                Err(RollCallError::NotFound)
            },
        }
    }

    /// Add a student; rejected with `Conflict` when the primary id is taken.
    pub fn create_student(&mut self, req: CreateStudentRequest) -> (r: Result<(), RollCallError>)
        requires
            old(self).wf(),
        ensures
            final(self).wf(),
            final(self).users@ == old(self).users@,
            final(self).groups@ == old(self).groups@,
            r is Err <==> has_student_id(old(self).students@, req.id@),
            r is Err ==> r == Err::<(), RollCallError>(RollCallError::Conflict) && final(self).students@ == old(self).students@,
            r is Ok ==> final(self).students@ == old(self).students@.push(req.as_student()),
    {
        let n: usize = self.students.len();
        for i in 0..n
            invariant
                *self == *old(self),
                old(self).wf(),
                n == self.students@.len(),
                forall|k: int| 0 <= k < i ==> self.students@[k].id@ != req.id@,
        {
            if self.students[i].id == req.id {
                proof {
                    assert(has_student_id(self.students@, req.id@));
                }
                return Err(RollCallError::Conflict);
            }
        }
        let student = Student {
            id: req.id,
            card_uid: req.card_uid,
            names: req.names,
            paternal_last_name: req.paternal_last_name,
            maternal_last_name: req.maternal_last_name,
            birth_date: req.birth_date,
            major: req.major,
            group: req.group,
            blood_type: req.blood_type,
            allergies: req.allergies,
            chronic_diseases: req.chronic_diseases,
            personal_phone: req.personal_phone,
            primary_guardian_phone: req.primary_guardian_phone,
            emergency_phone: req.emergency_phone,
        };
        self.students.push(student);
        Ok(())
    }

    /// Replace every display field of the student with primary id `id`;
    /// identity fields are untouched.
    pub fn update_student(&mut self, id: &String, req: UpdateStudentRequest) -> (r: Result<
        (),
        RollCallError,
    >)
        requires
            old(self).wf(),
        ensures
            final(self).wf(),
            final(self).users@ == old(self).users@,
            final(self).groups@ == old(self).groups@,
            r is Ok <==> has_student_id(old(self).students@, id@),
            r is Err ==> r == Err::<(), RollCallError>(RollCallError::NotFound)
                && final(self).students@ == old(self).students@,
            r is Ok ==> exists|i: int|
                0 <= i < old(self).students@.len() && old(self).students@[i].id@ == id@
                    && final(self).students@ == old(self).students@.update(
                    i,
                    req.applied_to(old(self).students@[i]),
                ),
    {
        let n: usize = self.students.len();
        for i in 0..n
            invariant
                *self == *old(self),
                old(self).wf(),
                n == self.students@.len(),
                forall|k: int| 0 <= k < i ==> self.students@[k].id@ != id@,
        {
            if self.students[i].id == *id {
                let old_row = self.students[i].clone();
                self.students[i] = Student {
                    names: req.names,
                    paternal_last_name: req.paternal_last_name,
                    maternal_last_name: req.maternal_last_name,
                    birth_date: req.birth_date,
                    major: req.major,
                    group: req.group,
                    blood_type: req.blood_type,
                    allergies: req.allergies,
                    chronic_diseases: req.chronic_diseases,
                    personal_phone: req.personal_phone,
                    primary_guardian_phone: req.primary_guardian_phone,
                    emergency_phone: req.emergency_phone,
                    ..old_row
                };
                proof {
                    let s0 = old(self).students@;
                    let s1 = self.students@;
                    assert(forall|k: int| 0 <= k < s1.len() ==> s1[k].id@ == s0[k].id@);
                    assert(s0[i as int].id@ == id@);
                    assert(has_student_id(s0, id@));
                    assert(s1 =~= s0.update(i as int, req.applied_to(s0[i as int])));
                }
                return Ok(());
            }
        }
        Err(RollCallError::NotFound)
    }

    /// Move the student with primary id `id` to another group.
    pub fn update_student_group(&mut self, id: &String, req: UpdateStudentGroupRequest) -> (r: Result<
        (),
        RollCallError,
    >)
        requires
            old(self).wf(),
        ensures
            final(self).wf(),
            final(self).users@ == old(self).users@,
            final(self).groups@ == old(self).groups@,
            r is Ok <==> has_student_id(old(self).students@, id@),
            r is Err ==> r == Err::<(), RollCallError>(RollCallError::NotFound) && final(self).students@ == old(self).students@,
            r is Ok ==> exists|i: int|
                0 <= i < old(self).students@.len() && old(self).students@[i].id@ == id@
                    && final(self).students@ == old(self).students@.update(
                    i,
                    (Student { group: req.group, ..old(self).students@[i] }),
                ),
    {
        let n: usize = self.students.len();
        for i in 0..n
            invariant
                *self == *old(self),
                old(self).wf(),
                n == self.students@.len(),
                forall|k: int| 0 <= k < i ==> self.students@[k].id@ != id@,
        {
            if self.students[i].id == *id {
                let old_row = self.students[i].clone();
                self.students[i] = Student { group: req.group, ..old_row };
                proof {
                    let s0 = old(self).students@;
                    let s1 = self.students@;
                    assert(forall|k: int| 0 <= k < s1.len() ==> s1[k].id@ == s0[k].id@);
                    assert(s0[i as int].id@ == id@);
                    assert(has_student_id(s0, id@));
                    assert(s1 =~= s0.update(
                        i as int,
                        (Student { group: req.group, ..s0[i as int] }),
                    ));
                }
                return Ok(());
            }
        }
        Err(RollCallError::NotFound)
    }

    /// Look a user up by numeric id.
    pub fn get_user(&self, id: i64) -> (r: Result<User, RollCallError>)
        ensures
            r is Ok <==> has_user_id(self.users@, id),
            r matches Ok(u) ==> u.id == id && self.users@.contains(u),
            r is Err ==> r == Err::<User, RollCallError>(RollCallError::NotFound),
    {
        let n: usize = self.users.len();
        for i in 0..n
            invariant
                n == self.users@.len(),
                forall|k: int| 0 <= k < i ==> self.users@[k].id != id,
        {
            if self.users[i].id == id {
                let found = self.users[i].clone();
                return Ok(found);
            }
        }
        Err(RollCallError::NotFound)
    }

    /// All users, in directory order.
    pub fn get_all_users(&self) -> (r: Vec<User>)
        ensures
            r@ == self.users@,
    {
        let mut out: Vec<User> = Vec::new();
        let n: usize = self.users.len();
        for i in 0..n
            invariant
                n == self.users@.len(),
                out@ == self.users@.subrange(0, i as int),
        {
            out.push(self.users[i].clone());
            assert(out@ =~= self.users@.subrange(0, i + 1 as int));
        }
        proof {
            assert(self.users@.subrange(0, n as int) =~= self.users@);
        }
        out
    }

    /// All groups, in directory order.
    pub fn get_all_groups(&self) -> (r: Vec<Group>)
        ensures
            r@ == self.groups@,
    {
        let mut out: Vec<Group> = Vec::new();
        let n: usize = self.groups.len();
        for i in 0..n
            invariant
                n == self.groups@.len(),
                out@ == self.groups@.subrange(0, i as int),
        {
            out.push(self.groups[i].clone());
            assert(out@ =~= self.groups@.subrange(0, i + 1 as int));
        }
        proof {
            assert(self.groups@.subrange(0, n as int) =~= self.groups@);
        }
        out
    }

    /// Add a group under a fresh id and return that id.
    pub fn create_group(&mut self, req: CreateGroupRequest) -> (r: Result<i64, RollCallError>)
        requires
            old(self).wf(),
            old(self).next_group_id < i64::MAX,
        ensures
            final(self).wf(),
            final(self).students@ == old(self).students@,
            final(self).users@ == old(self).users@,
            r matches Ok(id) && final(self).groups@ == old(self).groups@.push(
                Group { id: id, name: req.name, description: req.description },
            ) && id == old(self).next_group_id,
    {
        let id: i64 = self.next_group_id;
        self.next_group_id = self.next_group_id + 1;
        self.groups.push(Group { id, name: req.name, description: req.description });
        Ok(id)
    }

    /// Create a staff user under a fresh id and return that id.
    ///
    /// The request is validated first: the username and display name must
    /// not be blank, the password must keep at least four characters once
    /// trimmed, the role must be one of the known roles, and a colour tag,
    /// if given, must start with `#`. A taken username is a `Conflict`.
    /// `password` is the plain password, checked for length only;
    /// `password_hash` is what the directory stores.
    pub fn create_user(
        &mut self,
        req: CreateUserRequest,
        password: &String,
        password_hash: String,
    ) -> (r: Result<i64, RollCallError>)
        requires
            old(self).wf(),
            old(self).next_user_id < i64::MAX,
        ensures
            final(self).wf(),
            final(self).students@ == old(self).students@,
            final(self).groups@ == old(self).groups@,
            r == Err::<i64, RollCallError>(RollCallError::InvalidInput) <==> !valid_user_request(
                req,
                password@,
            ),
            r is Err ==> *final(self) == *old(self),
            r is Err ==> r == Err::<i64, RollCallError>(RollCallError::InvalidInput) || r
                == Err::<i64, RollCallError>(RollCallError::Conflict),
            valid_user_request(req, password@) ==> (r == Err::<i64, RollCallError>(
                RollCallError::Conflict,
            ) <==> has_username(old(self).users@, req.username@)),
            r matches Ok(id) ==> {
                &&& id == old(self).next_user_id
                &&& !has_username(old(self).users@, req.username@)
                &&& final(self).users@ == old(self).users@.push(
                    User {
                        id: id,
                        username: req.username,
                        display_name: req.display_name,
                        password_hash: password_hash,
                        role: req.role,
                        color: req.color,
                        phone_number: req.phone_number,
                    },
                )
            },
    {
        let valid = trimmed_len(&req.username) != 0 && trimmed_len(password) >= 4 && trimmed_len(
            &req.display_name,
        ) != 0 && is_known_role(&req.role) && match &req.color {
            Some(c) => starts_with_hash(c),
            None => true,
        };
        if !valid {
            return Err(RollCallError::InvalidInput);
        }
        let n: usize = self.users.len();
        for i in 0..n
            invariant
                *self == *old(self),
                old(self).wf(),
                valid_user_request(req, password@),
                n == self.users@.len(),
                forall|k: int| 0 <= k < i ==> self.users@[k].username@ != req.username@,
        {
            if self.users[i].username == req.username {
                proof {
                    assert(has_username(self.users@, req.username@));
                }
                return Err(RollCallError::Conflict);
            }
        }
        let id: i64 = self.next_user_id;
        self.next_user_id = self.next_user_id + 1;
        self.users.push(
            User {
                id,
                username: req.username,
                display_name: req.display_name,
                password_hash,
                role: req.role,
                color: req.color,
                phone_number: req.phone_number,
            },
        );
        Ok(id)
    }
}

/// Is this one of the roles the service knows?
pub open spec fn known_role(r: Seq<char>) -> bool {
    r == "Admin"@ || r == "Teacher"@ || r == "Regular"@ || r == "SuperUser"@
}

/// A user request is valid when no name is blank, the trimmed password has
/// at least four characters, the role is known, and a colour tag, if any,
/// starts with `#`.
pub open spec fn valid_user_request(req: CreateUserRequest, password: Seq<char>) -> bool {
    &&& trimmed(req.username@).len() != 0
    &&& trimmed(password).len() >= 4
    &&& trimmed(req.display_name@).len() != 0
    &&& known_role(req.role@)
    &&& (req.color matches Some(c) ==> c@.len() > 0 && c@[0] == '#')
}

/// Is this one of the roles the service knows?
fn is_known_role(role: &String) -> (b: bool)
    ensures
        b == known_role(role@),
{
    *role == "Admin".to_owned() || *role == "Teacher".to_owned() || *role == "Regular".to_owned()
        || *role == "SuperUser".to_owned()
}

/// Does the text start with `#`?
fn starts_with_hash(s: &String) -> (b: bool)
    ensures
        b == (s@.len() > 0 && s@[0] == '#'),
{
    let st = s.as_str();
    st.unicode_len() > 0 && st.get_char(0) == '#'
}

} // verus!
