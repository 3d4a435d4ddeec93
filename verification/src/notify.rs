//! Notification orchestration: the device-token registry and the push
//! messages the engine prepares. Delivery itself is best-effort work for
//! the surrounding application; the engine only decides who gets what text.

use vstd::prelude::*;

use crate::directory::{has_student_id, Directory};
use crate::errors::RollCallError;

verus! {

/// A device registered for push notifications, owned by a student.
pub struct PushToken {
    pub id: i64,
    pub student_id: String,
    pub token: String,
    pub device_name: Option<String>,
}

impl Clone for PushToken {
    fn clone(&self) -> (r: Self)
        ensures
            r == *self,
    {
        let r = PushToken {
            id: self.id,
            student_id: self.student_id.clone(),
            token: self.token.clone(),
            device_name: self.device_name.clone(),
        };
        r
    }
}

/// Request to register a device token for a student.
pub struct RegisterTokenRequest {
    pub student_id: String,
    pub token: String,
    pub device_name: Option<String>,
}

/// Acknowledgement of a token registration.
pub struct NotificationResponse {
    pub message: String,
}

/// One best-effort push message, addressed to a single device token.
pub struct PushMessage {
    pub to: String,
    pub title: String,
    pub body: String,
}

impl Clone for PushMessage {
    fn clone(&self) -> (r: Self)
        ensures
            r == *self,
    {
        let r = PushMessage {
            to: self.to.clone(),
            title: self.title.clone(),
            body: self.body.clone(),
        };
        r
    }
}

/// Is some registered token equal to `tok`?
pub open spec fn has_token(tokens: Seq<PushToken>, tok: Seq<char>) -> bool {
    exists|i: int| 0 <= i < tokens.len() && tokens[i].token@ == tok
}

/// The registry of device tokens. Each token string is registered once;
/// re-registering moves it to the requesting student.
pub struct TokenRegistry {
    pub tokens: Vec<PushToken>,
    pub next_token_id: i64,
}

impl TokenRegistry {
    pub open spec fn wf(self) -> bool {
        &&& forall|i: int, j: int|
            0 <= i < j < self.tokens@.len() ==> self.tokens@[i].token@ != self.tokens@[j].token@
        &&& forall|i: int| 0 <= i < self.tokens@.len() ==> self.tokens@[i].id < self.next_token_id
    }

    /// An empty registry.
    pub fn new() -> (r: TokenRegistry)
        ensures
            r.wf(),
            r.tokens@.len() == 0,
    {
        TokenRegistry { tokens: Vec::new(), next_token_id: 1 }
    }

    /// Register a device token for a student.
    ///
    /// The student must exist in the directory. A token seen for the first
    /// time is added under a fresh id; a token already registered is moved
    /// to the requesting student (a device may change hands), keeping its
    /// id, so no token ever appears twice in a broadcast.
    pub fn register_device_token(&mut self, dir: &Directory, req: RegisterTokenRequest) -> (r:
        Result<NotificationResponse, RollCallError>)
        requires
            old(self).wf(),
            old(self).next_token_id < i64::MAX,
        ensures
            final(self).wf(),
            r is Err <==> !has_student_id(dir.students@, req.student_id@),
            r is Err ==> r == Err::<NotificationResponse, RollCallError>(RollCallError::NotFound)
                && *final(self) == *old(self),
            r is Ok && has_token(old(self).tokens@, req.token@) ==> exists|i: int|
                0 <= i < old(self).tokens@.len() && (#[trigger] old(self).tokens@[i]).token@
                    == req.token@ && final(self).tokens@ == old(self).tokens@.update(
                    i,
                    (PushToken {
                        student_id: req.student_id,
                        device_name: req.device_name,
                        ..old(self).tokens@[i]
                    }),
                ),
            r is Ok && !has_token(old(self).tokens@, req.token@) ==> final(self).tokens@ == old(
                self,
            ).tokens@.push(
                PushToken {
                    id: old(self).next_token_id,
                    student_id: req.student_id,
                    token: req.token,
                    device_name: req.device_name,
                },
            ),
            r matches Ok(resp) ==> resp.message@ == "device registered"@,
    {
        let exists_student = match dir.get_student(&req.student_id) {
            Ok(_) => true,
            Err(_) => false,
        };
        if !exists_student {
            return Err(RollCallError::NotFound);
        }
        let n: usize = self.tokens.len();
        for i in 0..n
            invariant
                *self == *old(self),
                old(self).wf(),
                has_student_id(dir.students@, req.student_id@),
                n == self.tokens@.len(),
                forall|k: int| 0 <= k < i ==> self.tokens@[k].token@ != req.token@,
        {
            if self.tokens[i].token == req.token {
                let old_row = self.tokens[i].clone();
                self.tokens[i] = PushToken {
                    student_id: req.student_id,
                    device_name: req.device_name,
                    ..old_row
                };
                proof {
                    let t0 = old(self).tokens@;
                    let t1 = self.tokens@;
                    assert(forall|k: int| 0 <= k < t1.len() ==> t1[k].token@ == t0[k].token@);
                    assert(forall|k: int| 0 <= k < t1.len() ==> t1[k].id == t0[k].id);
                    assert(t0[i as int].token@ == req.token@);
                    assert(has_token(t0, req.token@));
                }
                return Ok(NotificationResponse { message: "device registered".to_owned() });
            }
        }
        let row = PushToken {
            id: self.next_token_id,
            student_id: req.student_id,
            token: req.token,
            device_name: req.device_name,
        };
        self.tokens.push(row);
        self.next_token_id = self.next_token_id + 1;
        Ok(NotificationResponse { message: "device registered".to_owned() })
    }

    /// The tokens registered for one student, in registration order.
    pub fn tokens_for_student(&self, student_id: &String) -> (r: Vec<PushToken>)
        ensures
            r@ == self.tokens@.filter(|t: PushToken| t.student_id@ == student_id@),
    {
        let ghost pred = |t: PushToken| t.student_id@ == student_id@;
        let mut out: Vec<PushToken> = Vec::new();
        let n: usize = self.tokens.len();
        for i in 0..n
            invariant
                n == self.tokens@.len(),
                out@ == self.tokens@.subrange(0, i as int).filter(pred),
                pred == (|t: PushToken| t.student_id@ == student_id@),
        {
            proof {
                reveal(Seq::filter);
                let pre = self.tokens@.subrange(0, i as int);
                let cur = self.tokens@.subrange(0, i + 1 as int);
                assert(cur.drop_last() =~= pre);
                assert(cur.last() == self.tokens@[i as int]);
            }
            if self.tokens[i].student_id == *student_id {
                out.push(self.tokens[i].clone());
            }
        }
        proof {
            assert(self.tokens@.subrange(0, n as int) =~= self.tokens@);
        }
        out
    }
}

/// Address one message with the given title and body to every token.
pub fn build_messages(tokens: &Vec<PushToken>, title: &String, body: &String) -> (r: Vec<
    PushMessage,
>)
    ensures
        r@.len() == tokens@.len(),
        forall|k: int|
            0 <= k < r@.len() ==> {
                &&& (#[trigger] r@[k]).to == tokens@[k].token
                &&& r@[k].title == *title
                &&& r@[k].body == *body
            },
{
    let mut out: Vec<PushMessage> = Vec::new();
    let n: usize = tokens.len();
    for i in 0..n
        invariant
            n == tokens@.len(),
            out@.len() == i,
            forall|k: int|
                0 <= k < i ==> {
                    &&& (#[trigger] out@[k]).to == tokens@[k].token
                    &&& out@[k].title == *title
                    &&& out@[k].body == *body
                },
    {
        out.push(
            PushMessage {
                to: tokens[i].token.clone(),
                title: title.clone(),
                body: body.clone(),
            },
        );
    }
    out
}

/// The broadcast sent when a session opens or closes: one message per
/// registered device, with the text picked by the new session state.
pub fn broadcast_emergency_messages(active: bool, tokens: &Vec<PushToken>) -> (r: Vec<PushMessage>)
    ensures
        r@.len() == tokens@.len(),
        forall|k: int|
            0 <= k < r@.len() ==> {
                &&& (#[trigger] r@[k]).to == tokens@[k].token
                &&& r@[k].title@ == (if active {
                    "Emergency activated"@
                } else {
                    "Emergency deactivated"@
                })
                &&& r@[k].body@ == (if active {
                    "The school emergency protocol is active. Please stay alert."@
                } else {
                    "The emergency protocol has been lifted. Everything is back to normal."@
                })
            },
{
    let title = if active {
        "Emergency activated".to_owned()
    } else {
        "Emergency deactivated".to_owned()
    };
    let body = if active {
        "The school emergency protocol is active. Please stay alert.".to_owned()
    } else {
        "The emergency protocol has been lifted. Everything is back to normal.".to_owned()
    };
    build_messages(tokens, &title, &body)
}

} // verus!
