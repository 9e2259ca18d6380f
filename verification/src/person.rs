use vstd::prelude::*;
use vstd::string::StrSliceExecFns;
use vstd::string::StringExecFns;

use crate::date::Date;
use crate::date::valid_date;

verus! {

/// A synthetic person record. All string fields are composed from the
/// exact reference strings drawn for the sample.
#[derive(Clone, Debug)]
pub struct Person {
    pub name: String,
    pub email: String,
    pub company: String,
    pub birth_date: Date,
}

/// What `str::to_lowercase` returns for a given character sequence; the
/// result is a function of the characters alone.
pub uninterp spec fn lower_of(s: Seq<char>) -> Seq<char>;

/// Relies on `str::to_lowercase`: the returned string depends on the input
/// characters alone.
#[verifier::external_body]
fn lowercase(s: &str) -> (r: String)
    ensures
        r@ == lower_of(s@),
{
    s.to_lowercase()
}

/// The full name of a sample: the first name, one separating space, the
/// surname, each unmodified.
pub open spec fn full_name(name: Seq<char>, surname: Seq<char>) -> Seq<char> {
    name + seq![' '] + surname
}

/// The email before lowercasing: the first character of the first name,
/// the surname, an '@', the domain.
pub open spec fn email_chars(name: Seq<char>, surname: Seq<char>, domain: Seq<char>) -> Seq<char> {
    seq![name[0]] + surname + seq!['@'] + domain
}

/// The email of a sample: the lowercase of `email_chars`. It is fully
/// determined by the drawn first name, surname and domain; the scheme is
/// deliberately naive and collision-prone.
pub open spec fn email_of(name: Seq<char>, surname: Seq<char>, domain: Seq<char>) -> Seq<char> {
    lower_of(email_chars(name, surname, domain))
}

/// Formats `"<name> <surname>"` with exactly one separating space and no
/// change to either string.
pub fn build_full_name(name: &str, surname: &str) -> (r: String)
    ensures
        r@ == full_name(name@, surname@),
{
    let mut s = String::from_str(name);
    s.append(" ");
    s.append(surname);
    proof {
        reveal_strlit(" ");
        assert(s@ =~= full_name(name@, surname@));
    }
    s
}

/// Builds the email for a drawn (first name, surname, domain) triple: the
/// first character of the first name, then the surname, '@' and the
/// domain, all lowercased at the end.
pub fn build_email(name: &str, surname: &str, domain: &str) -> (r: String)
    requires
        name@.len() > 0,
    ensures
        r@ == email_of(name@, surname@, domain@),
{
    let first = name.substring_char(0, 1);
    let mut s = String::from_str(first);
    s.append(surname);
    s.append("@");
    s.append(domain);
    proof {
        reveal_strlit("@");
        assert(s@ =~= email_chars(name@, surname@, domain@));
    }
    lowercase(s.as_str())
}

/// Composes a record from the strings and the date drawn for one sample.
/// Every field is pinned down by the arguments, so two records composed
/// from identical draws are identical.
pub fn person_from_draws(
    name: &str,
    surname: &str,
    company: &str,
    domain: &str,
    birth_date: Date,
) -> (p: Person)
    requires
        name@.len() > 0,
    ensures
        p.name@ == full_name(name@, surname@),
        p.email@ == email_of(name@, surname@, domain@),
        p.company@ == company@,
        p.birth_date == birth_date,
{
    Person {
        name: build_full_name(name, surname),
        email: build_email(name, surname, domain),
        company: String::from_str(company),
        birth_date,
    }
}

/// Determinism of composition: two records whose fields satisfy the
/// contract of `person_from_draws` for the same drawn strings and date
/// agree in every field.
pub proof fn lemma_compose_deterministic(
    p1: Person,
    p2: Person,
    name: Seq<char>,
    surname: Seq<char>,
    company: Seq<char>,
    domain: Seq<char>,
    birth_date: Date,
)
    requires
        p1.name@ == full_name(name, surname),
        p1.email@ == email_of(name, surname, domain),
        p1.company@ == company,
        p1.birth_date == birth_date,
        p2.name@ == full_name(name, surname),
        p2.email@ == email_of(name, surname, domain),
        p2.company@ == company,
        p2.birth_date == birth_date,
    ensures
        p1.name@ == p2.name@,
        p1.email@ == p2.email@,
        p1.company@ == p2.company@,
        p1.birth_date == p2.birth_date,
{
}

} // verus!
