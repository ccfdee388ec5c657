use vstd::prelude::*;

verus! {

/// The two fields of a subscription form.
#[derive(Clone, Copy, Debug, PartialEq, Eq, Structural)]
pub enum Field {
    Email,
    Name,
}

/// Why a submitted body is not a subscription form.
#[derive(Clone, Copy, Debug, PartialEq, Eq, Structural)]
pub enum FormError {
    /// The body is not `application/x-www-form-urlencoded` data.
    Malformed,
    /// The field's key does not occur in the body.
    MissingField(Field),
    /// The field's key occurs more than once in the body.
    DuplicateField(Field),
}

/// A subscription request as submitted: both fields are free text.
#[derive(Clone, Debug, PartialEq, Eq)]
pub struct FormData {
    pub email: String,
    pub name: String,
}

/// What a `FormData` holds.
pub struct FormModel {
    pub email: Seq<char>,
    pub name: Seq<char>,
}

impl View for FormData {
    type V = FormModel;

    open spec fn view(&self) -> FormModel {
        FormModel { email: self.email@, name: self.name@ }
    }
}

/// Decoded key/value pairs, as character sequences.
pub type Pairs = Seq<(Seq<char>, Seq<char>)>;

/// The key under which a field is submitted.
pub open spec fn key_of(f: Field) -> Seq<char> {
    match f {
        Field::Email => seq!['e', 'm', 'a', 'i', 'l'],
        Field::Name => seq!['n', 'a', 'm', 'e'],
    }
}

pub open spec fn pairs_view(ps: Seq<(String, String)>) -> Pairs {
    ps.map_values(|p: (String, String)| (p.0@, p.1@))
}

pub open spec fn chars_of(o: Option<String>) -> Option<Seq<char>> {
    match o {
        Some(s) => Some(s@),
        None => None,
    }
}

/// How many pairs have key `k`.
pub open spec fn key_count(ps: Pairs, k: Seq<char>) -> nat
    decreases ps.len(),
{
    if ps.len() == 0 {
        0
    } else {
        key_count(ps.drop_last(), k) + if ps.last().0 == k { 1nat } else { 0nat }
    }
}

/// The pairs read in order: the value seen so far for each field, or the
/// first field whose key comes a second time. Other keys are passed over.
pub open spec fn scan_fields(ps: Pairs) -> Result<(Option<Seq<char>>, Option<Seq<char>>), Field>
    decreases ps.len(),
{
    if ps.len() == 0 {
        Ok((None, None))
    } else {
        match scan_fields(ps.drop_last()) {
            Err(f) => Err(f),
            Ok((e, n)) => {
                let k = ps.last().0;
                let v = ps.last().1;
                if k == key_of(Field::Email) {
                    if e is Some { Err(Field::Email) } else { Ok((Some(v), n)) }
                } else if k == key_of(Field::Name) {
                    if n is Some { Err(Field::Name) } else { Ok((e, Some(v))) }
                } else {
                    Ok((e, n))
                }
            },
        }
    }
}

/// The record that decoded pairs make, or why they make none. A repeated key
/// is reported where it repeats; a missing `email` before a missing `name`.
pub open spec fn decode_pairs(ps: Pairs) -> Result<FormModel, FormError> {
    match scan_fields(ps) {
        Err(f) => Err(FormError::DuplicateField(f)),
        Ok((None, _)) => Err(FormError::MissingField(Field::Email)),
        Ok((Some(_), None)) => Err(FormError::MissingField(Field::Name)),
        Ok((Some(e), Some(n))) => Ok(FormModel { email: e, name: n }),
    }
}

/// The pairs that url-encoded `b` decodes to, or `None` where it decodes to none.
pub uninterp spec fn urlencoded_pairs(b: Seq<u8>) -> Option<Pairs>;

/// The record that the body `b` makes, or why it makes none.
pub open spec fn decode_body(b: Seq<u8>) -> Result<FormModel, FormError> {
    match urlencoded_pairs(b) {
        None => Err(FormError::Malformed),
        Some(ps) => decode_pairs(ps),
    }
}

pub open spec fn form_result_view(r: Result<FormData, FormError>) -> Result<FormModel, FormError> {
    match r {
        Ok(f) => Ok(f@),
        Err(e) => Err(e),
    }
}

/// Relies on serde_urlencoded::from_bytes, read into a list of (key, value)
/// strings: it splits the body at `&` and `=` and percent-decodes each part,
/// so the outcome depends on the bytes alone.
#[verifier::external_body]
fn parse_urlencoded(body: &[u8]) -> (r: Option<Vec<(String, String)>>)
    ensures
        match r {
            Some(ps) => urlencoded_pairs(body@) == Some(pairs_view(ps@)),
            None => urlencoded_pairs(body@) is None,
        },
{
    serde_urlencoded::from_bytes::<Vec<(String, String)>>(body).ok()
}

/// Once a prefix of the pairs repeats a key, so do the pairs.
proof fn lemma_scan_error_stays(ps: Pairs, j: int)
    requires
        0 <= j <= ps.len(),
        scan_fields(ps.take(j)) is Err,
    ensures
        scan_fields(ps) == scan_fields(ps.take(j)),
    decreases ps.len() - j,
{
    if j < ps.len() {
        assert(ps.take(j + 1).drop_last() == ps.take(j));
        lemma_scan_error_stays(ps, j + 1);
    } else {
        assert(ps.take(j) == ps);
    }
}

impl Field {
    /// The key under which the field is submitted.
    pub fn key(&self) -> (r: String)
        ensures
            r@ == key_of(*self),
    {
        match self {
            Field::Email => {
                proof {
                    reveal_strlit("email");
                }
                "email".to_owned()
            },
            Field::Name => {
                proof {
                    reveal_strlit("name");
                }
                "name".to_owned()
            },
        }
    }
}

impl FormData {
    pub fn new(email: String, name: String) -> (r: FormData)
        ensures
            r@ == (FormModel { email: email@, name: name@ }),
    {
        FormData { email, name }
    }

    pub fn email(&self) -> (r: &String)
        ensures
            r@ == self.email@,
    {
        &self.email
    }

    pub fn name(&self) -> (r: &String)
        ensures
            r@ == self.name@,
    {
        &self.name
    }

    /// Builds the record from decoded pairs, in the order they came.
    pub fn from_pairs(pairs: &Vec<(String, String)>) -> (r: Result<FormData, FormError>)
        ensures
            form_result_view(r) == decode_pairs(pairs_view(pairs@)),
    {
        let email_key = Field::Email.key();
        let name_key = Field::Name.key();
        let ghost pv = pairs_view(pairs@);
        let mut email: Option<String> = None;
        let mut name: Option<String> = None;
        let mut i: usize = 0;
        while i < pairs.len()
            invariant
                i <= pairs@.len(),
                pv == pairs_view(pairs@),
                email_key@ == key_of(Field::Email),
                name_key@ == key_of(Field::Name),
                scan_fields(pv.take(i as int)) == Ok::<_, Field>((chars_of(email), chars_of(name))),
            decreases pairs@.len() - i,
        {
            let ghost prefix = pv.take(i as int + 1);
            assert(prefix.drop_last() == pv.take(i as int));
            let pair = &pairs[i];
            if pair.0 == email_key {
                if email.is_some() {
                    proof {
                        lemma_scan_error_stays(pv, i as int + 1);
                    }
                    return Err(FormError::DuplicateField(Field::Email));
                }
                email = Some(pair.1.clone());
            } else if pair.0 == name_key {
                if name.is_some() {
                    proof {
                        lemma_scan_error_stays(pv, i as int + 1);
                    }
                    return Err(FormError::DuplicateField(Field::Name));
                }
                name = Some(pair.1.clone());
            }
            i = i + 1;
        }
        assert(pv.take(i as int) == pv);
        match (email, name) {
            (None, _) => Err(FormError::MissingField(Field::Email)),
            (Some(_), None) => Err(FormError::MissingField(Field::Name)),
            (Some(e), Some(n)) => Ok(FormData { email: e, name: n }),
        }
    }
}

/// Decodes a url-encoded request body into the subscription record.
pub fn decode_form(body: &[u8]) -> (r: Result<FormData, FormError>)
    ensures
        form_result_view(r) == decode_body(body@),
{
    match parse_urlencoded(body) {
        None => Err(FormError::Malformed),
        Some(pairs) => FormData::from_pairs(&pairs),
    }
}

} // verus!
