use vstd::prelude::*;
use crate::form::{
    decode_body, decode_form, key_count, key_of, scan_fields, urlencoded_pairs, Field, FormData,
    FormError, FormModel, Pairs,
};
use crate::response::{empty_reply, Response, STATUS_OK};

verus! {

/// The reply to a subscription request: it does not depend on the form.
pub open spec fn subscribe_reply(form: FormModel) -> (u16, Seq<u8>) {
    empty_reply(STATUS_OK)
}

/// What a submitted body comes to: the reply, or why the body holds no form.
pub open spec fn submission_outcome(body: Seq<u8>) -> Result<(u16, Seq<u8>), FormError> {
    match decode_body(body) {
        Ok(form) => Ok(subscribe_reply(form)),
        Err(e) => Err(e),
    }
}

pub open spec fn outcome_view(r: Result<Response, FormError>) -> Result<(u16, Seq<u8>), FormError> {
    match r {
        Ok(resp) => Ok(resp@),
        Err(e) => Err(e),
    }
}

/// Acknowledges a subscription request: `200 OK` with an empty body, whatever
/// the form holds.
pub fn subscribe(form: FormData) -> (r: Response)
    ensures
        r@ == subscribe_reply(form@),
{
    Response::empty(STATUS_OK)
}

/// Decodes a url-encoded body and, where it holds a form, acknowledges it.
pub fn handle_submission(body: &[u8]) -> (r: Result<Response, FormError>)
    ensures
        outcome_view(r) == submission_outcome(body@),
{
    match decode_form(body) {
        Ok(form) => Ok(subscribe(form)),
        Err(e) => Err(e),
    }
}

proof fn lemma_keys_differ()
    ensures
        key_of(Field::Email) != key_of(Field::Name),
{
    assert(key_of(Field::Email).len() == 5);
    assert(key_of(Field::Name).len() == 4);
}

/// Where each key comes at most once, reading the pairs fails on no key,
/// and finds a field exactly where its key comes.
proof fn lemma_scan_by_counts(ps: Pairs)
    requires
        key_count(ps, key_of(Field::Email)) <= 1,
        key_count(ps, key_of(Field::Name)) <= 1,
    ensures
        scan_fields(ps) is Ok,
        (scan_fields(ps)->Ok_0.0 is Some) == (key_count(ps, key_of(Field::Email)) == 1),
        (scan_fields(ps)->Ok_0.1 is Some) == (key_count(ps, key_of(Field::Name)) == 1),
    decreases ps.len(),
{
    lemma_keys_differ();
    if ps.len() > 0 {
        lemma_scan_by_counts(ps.drop_last());
    }
}

/// A field whose key never comes is not found.
proof fn lemma_scan_absent(ps: Pairs, f: Field)
    requires
        key_count(ps, key_of(f)) == 0,
    ensures
        scan_fields(ps) is Ok ==> match f {
            Field::Email => scan_fields(ps)->Ok_0.0 is None,
            Field::Name => scan_fields(ps)->Ok_0.1 is None,
        },
    decreases ps.len(),
{
    lemma_keys_differ();
    if ps.len() > 0 {
        lemma_scan_absent(ps.drop_last(), f);
    }
}

/// A body that decodes to pairs in which `email` and `name` each come exactly
/// once is answered with `200 OK` and an empty body.
pub proof fn lemma_complete_form_acknowledged(body: Seq<u8>)
    requires
        urlencoded_pairs(body) is Some,
        key_count(urlencoded_pairs(body)->Some_0, key_of(Field::Email)) == 1,
        key_count(urlencoded_pairs(body)->Some_0, key_of(Field::Name)) == 1,
    ensures
        decode_body(body) is Ok,
        submission_outcome(body) == Ok::<(u16, Seq<u8>), FormError>(empty_reply(STATUS_OK)),
{
    lemma_scan_by_counts(urlencoded_pairs(body)->Some_0);
}

/// The reply does not depend on the values of the fields: any two bodies that
/// hold a form are answered alike.
pub proof fn lemma_reply_ignores_values(a: Seq<u8>, b: Seq<u8>)
    requires
        decode_body(a) is Ok,
        decode_body(b) is Ok,
    ensures
        submission_outcome(a) == submission_outcome(b),
        submission_outcome(a) == Ok::<(u16, Seq<u8>), FormError>(empty_reply(STATUS_OK)),
{
}

/// A body that decodes to pairs without the key of one of the fields holds
/// no form, and is refused.
pub proof fn lemma_missing_field_refused(body: Seq<u8>, f: Field)
    requires
        urlencoded_pairs(body) is Some,
        key_count(urlencoded_pairs(body)->Some_0, key_of(f)) == 0,
    ensures
        decode_body(body) is Err,
        submission_outcome(body) is Err,
{
    lemma_scan_absent(urlencoded_pairs(body)->Some_0, f);
}

/// Handling keeps no state: submitting the same body again comes to the same
/// outcome.
pub proof fn lemma_resubmission_same_outcome(first: Seq<u8>, again: Seq<u8>)
    requires
        first == again,
    ensures
        submission_outcome(first) == submission_outcome(again),
{
}

} // verus!
