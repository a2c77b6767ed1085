//! The outbound message and its encoding.

use crate::error::TWRSError;
use crate::form::{form_encode, form_pair, form_text, pairs_view};
use vstd::prelude::*;

verus! {

/// The message to send: its text, the sender and the recipient.
///
/// All three are always part of the encoded form, also where they are empty.
#[allow(non_snake_case)]
pub struct TwilioSend<'s> {
    pub Body: &'s str,
    pub From: &'s str,
    pub To: &'s str,
}

impl<'s> TwilioSend<'s> {
    /// The fields of the form, by name, in the order in which they are sent.
    pub open spec fn form_fields(self) -> Seq<(Seq<char>, Seq<char>)> {
        seq![("Body"@, self.Body@), ("From"@, self.From@), ("To"@, self.To@)]
    }

    /// The form of a message always holds its three fields, also where they
    /// are empty: `Body`, `From` and `To`, in this order.
    pub proof fn lemma_form_holds_every_field(self)
        ensures
            form_text(self.form_fields()) == form_pair(("Body"@, self.Body@)) + seq!['&']
                + form_pair(("From"@, self.From@)) + seq!['&'] + form_pair(("To"@, self.To@)),
    {
        let fields = self.form_fields();
        assert(fields.drop_last() =~= seq![("Body"@, self.Body@), ("From"@, self.From@)]);
        assert(fields.drop_last().drop_last() =~= seq![("Body"@, self.Body@)]);
        reveal_with_fuel(form_text, 3);
    }

    /// A message whose three fields are empty.
    pub fn new() -> (r: TwilioSend<'s>)
        ensures
            r.Body@ == Seq::<char>::empty(),
            r.From@ == Seq::<char>::empty(),
            r.To@ == Seq::<char>::empty(),
    {
        proof {
            reveal_strlit("");
        }
        TwilioSend { From: "", To: "", Body: "" }
    }

    /// Encodes the message as the form that the provider expects: the fields
    /// `Body`, `From` and `To`, in this order.
    pub fn encode(self) -> (r: Result<String, TWRSError>)
        ensures
            r matches Ok(text) && text@ == form_text(self.form_fields()),
    {
        let mut fields: Vec<(&str, &str)> = Vec::new();
        fields.push(("Body", self.Body));
        fields.push(("From", self.From));
        fields.push(("To", self.To));
        assert(pairs_view(fields@) =~= self.form_fields());
        match form_encode(&fields) {
            Ok(text) => Ok(text),
            Err(e) => Err(TWRSError::URLEncodeFailure(e)),
        }
    }
}

} // verus!
