use vstd::prelude::*;

use crate::date::Date;
use crate::date::get_max_day_for_month;
use crate::date::in_birth_year_range;
use crate::date::valid_date;
use crate::person::Person;
use crate::person::email_of;
use crate::person::full_name;
use crate::person::person_from_draws;
use crate::rng::gen_range_usize;

verus! {

/// The record `p` is composed from the entries at positions `i`, `j`, `k`
/// of the three reference lists.
pub open spec fn sample_at(
    p: Person,
    names: Seq<String>,
    surnames: Seq<String>,
    companies: Seq<(String, String)>,
    i: int,
    j: int,
    k: int,
) -> bool {
    &&& 0 <= i < names.len()
    &&& 0 <= j < surnames.len()
    &&& 0 <= k < companies.len()
    &&& p.name@ == full_name(names[i]@, surnames[j]@)
    &&& p.email@ == email_of(names[i]@, surnames[j]@, companies[k].1@)
    &&& p.company@ == companies[k].0@
}

/// The record `p` is composed from one entry of each reference list.
pub open spec fn is_sample_of(
    p: Person,
    names: Seq<String>,
    surnames: Seq<String>,
    companies: Seq<(String, String)>,
) -> bool {
    exists|i: int, j: int, k: int| sample_at(p, names, surnames, companies, i, j, k)
}

/// Draws a birth date: the year from 1977 to 1997, the month from 1 to 12,
/// the day from 1 to the month's bound under the fixed non-leap-year rule,
/// each bound inclusive.
pub fn build_birth_date(rng: &mut rand::rngs::StdRng) -> (d: Date)
    ensures
        valid_date(d),
        in_birth_year_range(d),
{
    let year: u32 = gen_range_usize(rng, 1977, 1998) as u32;
    let month: u32 = gen_range_usize(rng, 1, 13) as u32;
    let bound: u32 = get_max_day_for_month(month);
    let day: u32 = gen_range_usize(rng, 1, bound as usize + 1) as u32;
    Date { year, month, day }
}

/// Draws one uniformly random entry from each reference list and composes
/// one person record from them. The lists must be non-empty and every
/// first name must have at least one character; both are preconditions of
/// the reference data, not runtime conditions.
pub fn sample_person(
    rng: &mut rand::rngs::StdRng,
    names: &Vec<String>,
    surnames: &Vec<String>,
    companies: &Vec<(String, String)>,
) -> (p: Person)
    requires
        names@.len() > 0,
        surnames@.len() > 0,
        companies@.len() > 0,
        forall|i: int| 0 <= i < names@.len() ==> #[trigger] names@[i]@.len() > 0,
    ensures
        is_sample_of(p, names@, surnames@, companies@),
        valid_date(p.birth_date),
        in_birth_year_range(p.birth_date),
{
    let i: usize = gen_range_usize(rng, 0, names.len());
    let j: usize = gen_range_usize(rng, 0, surnames.len());
    let k: usize = gen_range_usize(rng, 0, companies.len());
    let name: &str = names[i].as_str();
    let surname: &str = surnames[j].as_str();
    let company: &str = companies[k].0.as_str();
    let domain: &str = companies[k].1.as_str();
    let birth_date = build_birth_date(rng);
    let p = person_from_draws(name, surname, company, domain, birth_date);
    proof {
        assert(sample_at(p, names@, surnames@, companies@, i as int, j as int, k as int));
    }
    p
}

/// Membership: a sampled record's company is the name component of some
/// entry of the companies list.
pub proof fn lemma_company_from_list(
    p: Person,
    names: Seq<String>,
    surnames: Seq<String>,
    companies: Seq<(String, String)>,
)
    requires
        is_sample_of(p, names, surnames, companies),
    ensures
        exists|k: int| 0 <= k < companies.len() && p.company@ == #[trigger] companies[k].0@,
{
    let (i, j, k) = choose|i: int, j: int, k: int| sample_at(p, names, surnames, companies, i, j, k);
    assert(0 <= k < companies.len() && p.company@ == companies[k].0@);
}

} // verus!
