//! The scripted collector: one validated value per field, in a fixed order.
//!
//! Each field is collected by scanning candidate input lines in order: a
//! line whose trimmed text satisfies the field's rule is accepted and stored
//! trimmed; a line that does not is rejected and never stored, and the next
//! line is tried, without limit. Running out of lines is the only failure.

use vstd::prelude::*;
use crate::model::{Education, Experience, PersonalInfo, Resume};
use crate::numbers::age_of;
use crate::validate::{
    all_digits, email_ok, is_all_digits, is_email, is_name_like, is_phone, name_like, phone_ok,
    trim_str, trimmed,
};

verus! {

/// The validation rule attached to a field.
#[derive(Clone, Copy, PartialEq, Eq, Structural, Debug)]
pub enum FieldRule {
    /// Letters and whitespace only.
    NameLike,
    /// Decimal digits only.
    Digits,
    /// Optionally `+`-signed hyphen-separated digit groups.
    Phone,
    /// Local part, `@`, domain, `.`, top-level segment.
    Email,
    /// Any text, the empty string included.
    Free,
}

/// Whether `s` satisfies the rule.
pub open spec fn rule_matches(rule: FieldRule, s: Seq<char>) -> bool {
    match rule {
        FieldRule::NameLike => name_like(s),
        FieldRule::Digits => all_digits(s),
        FieldRule::Phone => phone_ok(s),
        FieldRule::Email => email_ok(s),
        FieldRule::Free => true,
    }
}

/// Whether the string satisfies the rule.
pub fn matches_rule(rule: FieldRule, s: &str) -> (r: bool)
    ensures
        r == rule_matches(rule, s@),
{
    match rule {
        FieldRule::NameLike => is_name_like(s),
        FieldRule::Digits => is_all_digits(s),
        FieldRule::Phone => is_phone(s),
        FieldRule::Email => is_email(s),
        FieldRule::Free => true,
    }
}

/// The index of the first line at or after `start` whose trimmed text
/// satisfies the rule, if any.
pub open spec fn first_match(inputs: Seq<String>, start: int, rule: FieldRule) -> Option<int>
    decreases inputs.len() - start,
{
    if start < 0 || start >= inputs.len() {
        None
    } else if rule_matches(rule, trimmed(inputs[start]@)) {
        Some(start)
    } else {
        first_match(inputs, start + 1, rule)
    }
}

/// An input whose trimmed text satisfies the rule is accepted at once: the
/// collector stores it on the first try.
pub proof fn lemma_accept_first_try(inputs: Seq<String>, start: int, rule: FieldRule)
    requires
        0 <= start < inputs.len(),
        rule_matches(rule, trimmed(inputs[start]@)),
    ensures
        first_match(inputs, start, rule) == Some(start),
{
}

/// An input whose trimmed text does not satisfy the rule is skipped: the
/// collector moves on to the next line as if the rejected one had never
/// been offered.
pub proof fn lemma_reject_skips(inputs: Seq<String>, start: int, rule: FieldRule)
    requires
        0 <= start < inputs.len(),
        !rule_matches(rule, trimmed(inputs[start]@)),
    ensures
        first_match(inputs, start, rule) == first_match(inputs, start + 1, rule),
{
}

/// Whatever line the collector settles on satisfies the rule, and every
/// line it passed over does not: a rejected value is never stored.
pub proof fn lemma_first_match_valid(inputs: Seq<String>, start: int, rule: FieldRule)
    requires
        0 <= start,
        first_match(inputs, start, rule) is Some,
    ensures
        start <= first_match(inputs, start, rule)->Some_0 < inputs.len(),
        rule_matches(rule, trimmed(inputs[first_match(inputs, start, rule)->Some_0]@)),
        forall|j: int|
            start <= j < first_match(inputs, start, rule)->Some_0 ==> !rule_matches(
                rule,
                trimmed(#[trigger] inputs[j]@),
            ),
    decreases inputs.len() - start,
{
    if start < inputs.len() && !rule_matches(rule, trimmed(inputs[start]@)) {
        lemma_first_match_valid(inputs, start + 1, rule);
    }
}

/// Collects one field: returns the trimmed text of the first line at or
/// after `start` that satisfies the rule, with the index of the line after
/// it, or nothing when the lines run out first.
pub fn collect_field(inputs: &Vec<String>, start: usize, rule: FieldRule) -> (r: Option<
    (String, usize),
>)
    ensures
        match first_match(inputs@, start as int, rule) {
            Some(i) => {
                &&& r is Some
                &&& r->Some_0.0@ == trimmed(inputs@[i]@)
                &&& r->Some_0.1 == i + 1
                &&& rule_matches(rule, r->Some_0.0@)
            },
            None => r is None,
        },
{
    let n = inputs.len();
    if start >= n {
        return None;
    }
    let mut i: usize = start;
    while i < n
        invariant
            start <= i <= n,
            n == inputs@.len(),
            first_match(inputs@, start as int, rule) == first_match(inputs@, i as int, rule),
        decreases n - i,
    {
        let t = trim_str(inputs[i].as_str());
        if matches_rule(rule, t.as_str()) {
            return Some((t, i + 1));
        }
        i += 1;
    }
    None
}

/// The values and final position of collecting one field per rule in order,
/// if every field finds an acceptable line.
pub open spec fn chain(inputs: Seq<String>, start: int, rules: Seq<FieldRule>) -> Option<
    (Seq<Seq<char>>, int),
>
    decreases rules.len(),
{
    if rules.len() == 0 {
        Some((Seq::empty(), start))
    } else {
        match first_match(inputs, start, rules[0]) {
            None => None,
            Some(i) => match chain(inputs, i + 1, rules.skip(1)) {
                None => None,
                Some(p) => Some((seq![trimmed(inputs[i]@)] + p.0, p.1)),
            },
        }
    }
}

/// Every value a successful collection stores satisfies its field's rule,
/// and there is one value per field.
pub proof fn lemma_chain_valid(inputs: Seq<String>, start: int, rules: Seq<FieldRule>)
    requires
        0 <= start,
        chain(inputs, start, rules) is Some,
    ensures
        chain(inputs, start, rules)->Some_0.0.len() == rules.len(),
        forall|i: int|
            0 <= i < rules.len() ==> rule_matches(
                rules[i],
                #[trigger] chain(inputs, start, rules)->Some_0.0[i],
            ),
    decreases rules.len(),
{
    if rules.len() > 0 {
        let fm = first_match(inputs, start, rules[0]);
        lemma_first_match_valid(inputs, start, rules[0]);
        lemma_chain_valid(inputs, fm->Some_0 + 1, rules.skip(1));
        let p = chain(inputs, fm->Some_0 + 1, rules.skip(1))->Some_0;
        assert forall|i: int| 0 <= i < rules.len() implies rule_matches(
            rules[i],
            #[trigger] chain(inputs, start, rules)->Some_0.0[i],
        ) by {
            if i > 0 {
                assert(chain(inputs, start, rules)->Some_0.0[i] == p.0[i - 1]);
                assert(rules.skip(1)[i - 1] == rules[i]);
            }
        }
    }
}

/// The views of a sequence of strings.
pub open spec fn views_of(ss: Seq<String>) -> Seq<Seq<char>> {
    ss.map_values(|t: String| t@)
}

/// Collects one value per rule, in order: the trimmed accepted values, or
/// nothing when some field runs out of lines.
pub fn collect_values(inputs: &Vec<String>, rules: &Vec<FieldRule>) -> (r: Option<Vec<String>>)
    ensures
        match chain(inputs@, 0, rules@) {
            Some(p) => r is Some && views_of(r->Some_0@) == p.0,
            None => r is None,
        },
{
    let mut acc: Vec<String> = Vec::new();
    let mut cur: usize = 0;
    let mut k: usize = 0;
    let n = rules.len();
    proof {
        assert(rules@.skip(0) =~= rules@);
        assert(views_of(acc@) =~= Seq::<Seq<char>>::empty());
    }
    while k < n
        invariant
            0 <= k <= n,
            n == rules@.len(),
            acc@.len() == k,
            match chain(inputs@, cur as int, rules@.skip(k as int)) {
                Some(p) => {
                    &&& chain(inputs@, 0, rules@) is Some
                    &&& chain(inputs@, 0, rules@)->Some_0.0 == views_of(acc@) + p.0
                    &&& chain(inputs@, 0, rules@)->Some_0.1 == p.1
                },
                None => chain(inputs@, 0, rules@) is None,
            },
        decreases n - k,
    {
        let ghost rest = rules@.skip(k as int);
        proof {
            assert(rest[0] == rules@[k as int]);
            assert(rest.skip(1) =~= rules@.skip(k as int + 1));
        }
        match collect_field(inputs, cur, rules[k]) {
            None => {
                return None;
            },
            Some((v, nxt)) => {
                proof {
                    let i = first_match(inputs@, cur as int, rules@[k as int])->Some_0;
                    assert(views_of(acc@.push(v)) =~= views_of(acc@) + seq![v@]);
                    if chain(inputs@, nxt as int, rest.skip(1)) is Some {
                        let p = chain(inputs@, nxt as int, rest.skip(1))->Some_0;
                        assert(chain(inputs@, cur as int, rest)->Some_0.0 == seq![
                            trimmed(inputs@[i]@),
                        ] + p.0);
                        assert(views_of(acc@) + (seq![trimmed(inputs@[i]@)] + p.0) =~= (views_of(
                            acc@,
                        ) + seq![trimmed(inputs@[i]@)]) + p.0);
                    }
                }
                acc.push(v);
                cur = nxt;
                k += 1;
            },
        }
    }
    proof {
        assert(rules@.skip(n as int) =~= Seq::<FieldRule>::empty());
        assert(chain(inputs@, cur as int, rules@.skip(n as int)) == Some(
            (Seq::<Seq<char>>::empty(), cur as int),
        ));
        assert(views_of(acc@) + Seq::<Seq<char>>::empty() =~= views_of(acc@));
    }
    Some(acc)
}

/// The rules of the nineteen fields of a resume, in collection order: the
/// personal fields, then one education entry, then one experience entry.
pub open spec fn resume_rules() -> Seq<FieldRule> {
    seq![
        FieldRule::NameLike,  // name
        FieldRule::NameLike,  // sex
        FieldRule::Digits,  // age
        FieldRule::NameLike,  // religion
        FieldRule::Free,  // birthdate
        FieldRule::NameLike,  // father's name
        FieldRule::NameLike,  // mother's name
        FieldRule::NameLike,  // marital status
        FieldRule::Phone,  // phone number
        FieldRule::Email,  // email
        FieldRule::Free,  // address
        FieldRule::NameLike,  // degree
        FieldRule::NameLike,  // institution
        FieldRule::Digits,  // graduation year
        FieldRule::NameLike,  // job title
        FieldRule::NameLike,  // company
        FieldRule::Free,  // duration
        FieldRule::Free,  // responsibilities
        FieldRule::Free,  // expected salary
    ]
}

/// One field of the collection script: the prompt shown before reading, the
/// rule the trimmed input must satisfy, and the message shown on mismatch.
pub struct FieldSpec {
    pub prompt: String,
    pub rule: FieldRule,
    pub error: String,
}

fn field_spec(prompt: &str, rule: FieldRule, error: &str) -> (r: FieldSpec)
    ensures
        r.prompt@ == prompt@,
        r.rule == rule,
        r.error@ == error@,
{
    FieldSpec { prompt: String::from_str(prompt), rule, error: String::from_str(error) }
}

/// The fixed collection script: nineteen prompts in collection order, each
/// with its rule and its mismatch message.
pub fn resume_fields() -> (r: Vec<FieldSpec>)
    ensures
        r@.len() == 19,
        forall|i: int| 0 <= i < 19 ==> (#[trigger] r@[i]).rule == resume_rules()[i],
        r@[0].prompt@ == "Enter your name:"@,
        r@[0].error@ == "Invalid name. Only letters and spaces are allowed."@,
        r@[1].prompt@ == "Enter your sex:"@,
        r@[1].error@ == "Invalid sex. Only letters and spaces are allowed."@,
        r@[2].prompt@ == "Enter your age:"@,
        r@[2].error@ == "Invalid age. Please enter a valid number."@,
        r@[3].prompt@ == "Enter your religion:"@,
        r@[3].error@ == "Invalid religion. Only letters and spaces are allowed."@,
        r@[4].prompt@ == "Enter your birthdate:"@,
        r@[4].error@ == "Invalid date format."@,
        r@[5].prompt@ == "Enter your father's name:"@,
        r@[5].error@ == "Invalid name. Only letters and spaces are allowed."@,
        r@[6].prompt@ == "Enter your mother's name:"@,
        r@[6].error@ == "Invalid name. Only letters and spaces are allowed."@,
        r@[7].prompt@ == "Enter your marital status:"@,
        r@[7].error@ == "Invalid status. Only letters and spaces are allowed."@,
        r@[8].prompt@ == "Enter your phone number:"@,
        r@[8].error@ == "Invalid phone number format."@,
        r@[9].prompt@ == "Enter your email:"@,
        r@[9].error@ == "Invalid email format."@,
        r@[10].prompt@ == "Enter your address:"@,
        r@[10].error@ == "Invalid address format."@,
        r@[11].prompt@ == "Enter your degree:"@,
        r@[11].error@ == "Invalid degree. Only letters and spaces are allowed."@,
        r@[12].prompt@ == "Enter your institution:"@,
        r@[12].error@ == "Invalid institution. Only letters and spaces are allowed."@,
        r@[13].prompt@ == "Enter the year of graduation:"@,
        r@[13].error@ == "Invalid year. Please enter a valid year."@,
        r@[14].prompt@ == "Enter your job title:"@,
        r@[14].error@ == "Invalid job title. Only letters and spaces are allowed."@,
        r@[15].prompt@ == "Enter your company:"@,
        r@[15].error@ == "Invalid company name. Only letters and spaces are allowed."@,
        r@[16].prompt@ == "Enter your job duration:"@,
        r@[16].error@ == "Invalid duration format."@,
        r@[17].prompt@ == "Enter your responsibilities:"@,
        r@[17].error@ == "Invalid responsibilities format."@,
        r@[18].prompt@ == "Enter your expected salary:"@,
        r@[18].error@ == "Invalid salary format."@,
{
    let mut v: Vec<FieldSpec> = Vec::new();
    v.push(
        field_spec(
            "Enter your name:",
            FieldRule::NameLike,
            "Invalid name. Only letters and spaces are allowed.",
        ),
    );
    v.push(
        field_spec(
            "Enter your sex:",
            FieldRule::NameLike,
            "Invalid sex. Only letters and spaces are allowed.",
        ),
    );
    v.push(
        field_spec("Enter your age:", FieldRule::Digits, "Invalid age. Please enter a valid number."),
    );
    v.push(
        field_spec(
            "Enter your religion:",
            FieldRule::NameLike,
            "Invalid religion. Only letters and spaces are allowed.",
        ),
    );
    v.push(field_spec("Enter your birthdate:", FieldRule::Free, "Invalid date format."));
    v.push(
        field_spec(
            "Enter your father's name:",
            FieldRule::NameLike,
            "Invalid name. Only letters and spaces are allowed.",
        ),
    );
    v.push(
        field_spec(
            "Enter your mother's name:",
            FieldRule::NameLike,
            "Invalid name. Only letters and spaces are allowed.",
        ),
    );
    v.push(
        field_spec(
            "Enter your marital status:",
            FieldRule::NameLike,
            "Invalid status. Only letters and spaces are allowed.",
        ),
    );
    v.push(
        field_spec("Enter your phone number:", FieldRule::Phone, "Invalid phone number format."),
    );
    v.push(field_spec("Enter your email:", FieldRule::Email, "Invalid email format."));
    v.push(field_spec("Enter your address:", FieldRule::Free, "Invalid address format."));
    v.push(
        field_spec(
            "Enter your degree:",
            FieldRule::NameLike,
            "Invalid degree. Only letters and spaces are allowed.",
        ),
    );
    v.push(
        field_spec(
            "Enter your institution:",
            FieldRule::NameLike,
            "Invalid institution. Only letters and spaces are allowed.",
        ),
    );
    v.push(
        field_spec(
            "Enter the year of graduation:",
            FieldRule::Digits,
            "Invalid year. Please enter a valid year.",
        ),
    );
    v.push(
        field_spec(
            "Enter your job title:",
            FieldRule::NameLike,
            "Invalid job title. Only letters and spaces are allowed.",
        ),
    );
    v.push(
        field_spec(
            "Enter your company:",
            FieldRule::NameLike,
            "Invalid company name. Only letters and spaces are allowed.",
        ),
    );
    v.push(field_spec("Enter your job duration:", FieldRule::Free, "Invalid duration format."));
    v.push(
        field_spec(
            "Enter your responsibilities:",
            FieldRule::Free,
            "Invalid responsibilities format.",
        ),
    );
    v.push(
        field_spec("Enter your expected salary:", FieldRule::Free, "Invalid salary format."),
    );
    v
}

/// Builds a resume from the nineteen collected values, in collection
/// order. The age is the parsed value of the third field, stored as 0 when
/// it cannot be parsed.
pub fn assemble_resume(values: &Vec<String>) -> (r: Resume)
    requires
        values@.len() == 19,
    ensures
        r.personal_info.name@ == values@[0]@,
        r.personal_info.sex@ == values@[1]@,
        r.personal_info.age == age_of(values@[2]@),
        r.personal_info.religion@ == values@[3]@,
        r.personal_info.birthdate@ == values@[4]@,
        r.personal_info.fathers_name@ == values@[5]@,
        r.personal_info.mothers_name@ == values@[6]@,
        r.personal_info.marital_status@ == values@[7]@,
        r.personal_info.phone_number@ == values@[8]@,
        r.personal_info.email@ == values@[9]@,
        r.personal_info.address@ == values@[10]@,
        r.education@.len() == 1,
        r.education@[0].degree@ == values@[11]@,
        r.education@[0].institution@ == values@[12]@,
        r.education@[0].year@ == values@[13]@,
        r.experience@.len() == 1,
        r.experience@[0].job_title@ == values@[14]@,
        r.experience@[0].company@ == values@[15]@,
        r.experience@[0].duration@ == values@[16]@,
        r.experience@[0].responsibilities@ == values@[17]@,
        r.experience@[0].expected_salary@ == values@[18]@,
{
    let personal_info = PersonalInfo {
        name: values[0].clone(),
        sex: values[1].clone(),
        age: crate::numbers::parse_age(values[2].as_str()),
        religion: values[3].clone(),
        birthdate: values[4].clone(),
        fathers_name: values[5].clone(),
        mothers_name: values[6].clone(),
        marital_status: values[7].clone(),
        phone_number: values[8].clone(),
        email: values[9].clone(),
        address: values[10].clone(),
    };
    let mut education: Vec<Education> = Vec::new();
    education.push(
        Education {
            degree: values[11].clone(),
            institution: values[12].clone(),
            year: values[13].clone(),
        },
    );
    let mut experience: Vec<Experience> = Vec::new();
    experience.push(
        Experience {
            job_title: values[14].clone(),
            company: values[15].clone(),
            duration: values[16].clone(),
            responsibilities: values[17].clone(),
            expected_salary: values[18].clone(),
        },
    );
    Resume { personal_info, education, experience }
}

/// The invariant of a collected resume: every text field satisfies its
/// field's validation rule. The free-text fields and the age, which is
/// numeric by construction, have nothing to satisfy.
pub open spec fn collected_resume_wf(r: Resume) -> bool {
    &&& name_like(r.personal_info.name@)
    &&& name_like(r.personal_info.sex@)
    &&& name_like(r.personal_info.religion@)
    &&& name_like(r.personal_info.fathers_name@)
    &&& name_like(r.personal_info.mothers_name@)
    &&& name_like(r.personal_info.marital_status@)
    &&& phone_ok(r.personal_info.phone_number@)
    &&& email_ok(r.personal_info.email@)
    &&& forall|i: int|
        0 <= i < r.education@.len() ==> name_like((#[trigger] r.education@[i]).degree@)
            && name_like(r.education@[i].institution@) && all_digits(r.education@[i].year@)
    &&& forall|i: int|
        0 <= i < r.experience@.len() ==> name_like((#[trigger] r.experience@[i]).job_title@)
            && name_like(r.experience@[i].company@)
}

/// Collects a whole resume from the given lines: one value per field of the
/// fixed script, each the first acceptable line for its rule, or nothing
/// when the lines run out before the script is done.
pub fn collect_resume(inputs: &Vec<String>) -> (r: Option<Resume>)
    ensures
        r is Some ==> collected_resume_wf(r->Some_0),
        match chain(inputs@, 0, resume_rules()) {
            Some(p) => {
                &&& r is Some
                &&& r->Some_0.personal_info.name@ == p.0[0]
                &&& r->Some_0.personal_info.sex@ == p.0[1]
                &&& r->Some_0.personal_info.age == age_of(p.0[2])
                &&& r->Some_0.personal_info.religion@ == p.0[3]
                &&& r->Some_0.personal_info.birthdate@ == p.0[4]
                &&& r->Some_0.personal_info.fathers_name@ == p.0[5]
                &&& r->Some_0.personal_info.mothers_name@ == p.0[6]
                &&& r->Some_0.personal_info.marital_status@ == p.0[7]
                &&& r->Some_0.personal_info.phone_number@ == p.0[8]
                &&& r->Some_0.personal_info.email@ == p.0[9]
                &&& r->Some_0.personal_info.address@ == p.0[10]
                &&& r->Some_0.education@.len() == 1
                &&& r->Some_0.education@[0].degree@ == p.0[11]
                &&& r->Some_0.education@[0].institution@ == p.0[12]
                &&& r->Some_0.education@[0].year@ == p.0[13]
                &&& r->Some_0.experience@.len() == 1
                &&& r->Some_0.experience@[0].job_title@ == p.0[14]
                &&& r->Some_0.experience@[0].company@ == p.0[15]
                &&& r->Some_0.experience@[0].duration@ == p.0[16]
                &&& r->Some_0.experience@[0].responsibilities@ == p.0[17]
                &&& r->Some_0.experience@[0].expected_salary@ == p.0[18]
            },
            None => r is None,
        },
{
    let rules: Vec<FieldRule> = vec![
        FieldRule::NameLike,
        FieldRule::NameLike,
        FieldRule::Digits,
        FieldRule::NameLike,
        FieldRule::Free,
        FieldRule::NameLike,
        FieldRule::NameLike,
        FieldRule::NameLike,
        FieldRule::Phone,
        FieldRule::Email,
        FieldRule::Free,
        FieldRule::NameLike,
        FieldRule::NameLike,
        FieldRule::Digits,
        FieldRule::NameLike,
        FieldRule::NameLike,
        FieldRule::Free,
        FieldRule::Free,
        FieldRule::Free,
    ];
    proof {
        assert(rules@ =~= resume_rules());
    }
    match collect_values(inputs, &rules) {
        None => None,
        Some(values) => {
            proof {
                lemma_chain_valid(inputs@, 0, resume_rules());
                let p = chain(inputs@, 0, resume_rules())->Some_0;
                assert(rule_matches(resume_rules()[0], p.0[0]));
                assert(rule_matches(resume_rules()[1], p.0[1]));
                assert(rule_matches(resume_rules()[3], p.0[3]));
                assert(rule_matches(resume_rules()[5], p.0[5]));
                assert(rule_matches(resume_rules()[6], p.0[6]));
                assert(rule_matches(resume_rules()[7], p.0[7]));
                assert(rule_matches(resume_rules()[8], p.0[8]));
                assert(rule_matches(resume_rules()[9], p.0[9]));
                assert(rule_matches(resume_rules()[11], p.0[11]));
                assert(rule_matches(resume_rules()[12], p.0[12]));
                assert(rule_matches(resume_rules()[13], p.0[13]));
                assert(rule_matches(resume_rules()[14], p.0[14]));
                assert(rule_matches(resume_rules()[15], p.0[15]));
            }
            Some(assemble_resume(&values))
        },
    }
}

} // verus!
