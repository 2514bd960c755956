//! A member account: sign-up, log-in and role assignment.
use vstd::prelude::*;

verus! {

/// A member, known by e-mail address and password, with a role.
pub struct Member {
    email: String,
    password: String,
    role: String,
}

impl Member {
    pub closed spec fn spec_email(&self) -> Seq<char> {
        self.email@
    }

    pub closed spec fn spec_password(&self) -> Seq<char> {
        self.password@
    }

    pub closed spec fn spec_role(&self) -> Seq<char> {
        self.role@
    }

    /// A member with the role `user`.
    pub fn new(email: &str, password: &str) -> (r: Self)
        ensures
            r.spec_email() == email@,
            r.spec_password() == password@,
            r.spec_role() == "user"@,
    {
        Member {
            email: String::from_str(email),
            password: String::from_str(password),
            role: String::from_str("user"),
        }
    }

    /// Whether the credentials are this member's; a member with an empty
    /// e-mail address or password cannot log in.
    pub fn login(&self, email: &str, password: &str) -> (r: bool)
        ensures
            r == (self.spec_email().len() > 0 && self.spec_password().len() > 0
                && email@ == self.spec_email() && password@ == self.spec_password()),
    {
        if self.email.as_str().is_empty() || self.password.as_str().is_empty() {
            return false;
        }
        String::from_str(email) == self.email && String::from_str(password) == self.password
    }

    /// Sets the credentials; the role is kept.
    pub fn signup(&mut self, email: &str, password: &str) -> (r: String)
        ensures
            final(self).spec_email() == email@,
            final(self).spec_password() == password@,
            final(self).spec_role() == old(self).spec_role(),
            r@ == "Member "@ + email@ + " signed up"@,
    {
        self.email = String::from_str(email);
        self.password = String::from_str(password);
        let mut out = String::from_str("Member ");
        out.append(email);
        out.append(" signed up");
        out
    }

    /// Sets the role; the credentials are kept.
    pub fn assign_role(&mut self, role: &str) -> (r: String)
        ensures
            final(self).spec_email() == old(self).spec_email(),
            final(self).spec_password() == old(self).spec_password(),
            final(self).spec_role() == role@,
            r@ == "Member "@ + old(self).spec_email() + " assigned role "@ + role@,
    {
        self.role = String::from_str(role);
        let mut out = String::from_str("Member ");
        out.append(self.email.as_str());
        out.append(" assigned role ");
        out.append(role);
        out
    }
}

} // verus!
