use vstd::prelude::*;

verus! {

/// The role of a message that instructs the model.
pub const SYSTEM_ROLE: &'static str = "system";

/// The role of a message that carries a raw task prompt.
pub const USER_ROLE: &'static str = "user";

/// The role of a message that the model wrote.
pub const ASSISTANT_ROLE: &'static str = "assistant";

/// One role-tagged message of a chat conversation.
#[derive(Debug, Clone)]
pub struct Message {
    pub role: String,
    pub content: String,
}

impl Message {
    /// A message with the system role and the given content.
    pub fn system(content: String) -> (r: Message)
        ensures
            r.role@ == SYSTEM_ROLE@,
            r.content@ == content@,
    {
        Message { role: String::from_str(SYSTEM_ROLE), content }
    }

    /// A message with the user role and the given content.
    pub fn user(content: String) -> (r: Message)
        ensures
            r.role@ == USER_ROLE@,
            r.content@ == content@,
    {
        Message { role: String::from_str(USER_ROLE), content }
    }

    /// A copy of the message with the same role and content.
    pub fn duplicate(&self) -> (r: Message)
        ensures
            r.role@ == self.role@,
            r.content@ == self.content@,
    {
        Message { role: self.role.clone(), content: self.content.clone() }
    }
}

} // verus!
