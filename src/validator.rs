//! The method allow-list.
use vstd::prelude::*;

use crate::request::ParsedRequest;
use crate::text::same_text;

verus! {

/// The methods that are served: `GET`, `POST`, `PUT`, `PATCH`, `DELETE` and
/// `OPTIONS`, matched exactly, case included.
pub open spec fn allowed_method(m: Seq<char>) -> bool {
    ||| m == "GET"@
    ||| m == "POST"@
    ||| m == "PUT"@
    ||| m == "PATCH"@
    ||| m == "DELETE"@
    ||| m == "OPTIONS"@
}

#[derive(Debug, PartialEq, Eq, Structural)]
pub enum ValidationError {
    InvalidMethod,
}

pub struct RequestValidator;

impl RequestValidator {
    /// Accepts a request whose method is on the allow-list.
    pub fn validate(request: &ParsedRequest) -> (r: Result<(), ValidationError>)
        ensures
            r is Ok <==> allowed_method(request.method@),
            r is Err ==> r == Err::<(), ValidationError>(ValidationError::InvalidMethod),
    {
        if !Self::validate_method(request) {
            return Err(ValidationError::InvalidMethod);
        }
        Ok(())
    }

    fn validate_method(request: &ParsedRequest) -> (r: bool)
        ensures
            r == allowed_method(request.method@),
    {
        let valid_methods = vec!["GET", "POST", "PUT", "PATCH", "DELETE", "OPTIONS"];
        let method = request.method.as_str();
        let mut i: usize = 0;
        while i < valid_methods.len()
            invariant
                valid_methods@ == seq!["GET", "POST", "PUT", "PATCH", "DELETE", "OPTIONS"],
                method@ == request.method@,
                i <= valid_methods.len(),
                forall|j: int| 0 <= j < i ==> method@ != (#[trigger] valid_methods@[j])@,
            decreases valid_methods.len() - i,
        {
            if same_text(method, valid_methods[i]) {
                return true;
            }
            i = i + 1;
        }
        assert(method@ != valid_methods@[0]@);
        assert(method@ != valid_methods@[1]@);
        assert(method@ != valid_methods@[2]@);
        assert(method@ != valid_methods@[3]@);
        assert(method@ != valid_methods@[4]@);
        assert(method@ != valid_methods@[5]@);
        false
    }
}

} // verus!
