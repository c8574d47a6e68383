use vstd::prelude::*;

verus! {

/// The questions put to a client and the answers given, in order.
#[derive(Debug)]
pub struct QuestionAnswer {
    pub questions: Vec<String>,
    pub answers: Vec<String>,
}

/// The details of a case as entered in the drafting form.
#[derive(Debug)]
pub struct FormDetails {
    pub date: String,
    pub opponent: String,
    pub opponent_details: String,
    pub legal_concern: String,
    pub sender: String,
    pub client: String,
    pub client_details: String,
    pub amount_involved: String,
    pub concern: String,
}

} // verus!
