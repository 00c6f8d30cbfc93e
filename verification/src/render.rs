//! Deterministic page layout: a resume becomes a fixed sequence of
//! absolutely positioned text operations on one A4 page (210 by 297 mm).
//!
//! The order of sections, the one-field-per-line rule, the monotonic
//! top-to-bottom cursor and the three-fields-per-row rule for education are
//! the layout's contract; coordinates are in whole millimetres from the
//! page's lower left corner, and nothing wraps or reflows.

use vstd::prelude::*;
use crate::model::{
    education_eq, experience_eq, resume_eq, Education, Experience, PersonalInfo, Resume,
};
use crate::numbers::dec_str;

verus! {

/// The page width in millimetres.
pub const PAGE_WIDTH_MM: u32 = 210;

/// The page height in millimetres.
pub const PAGE_HEIGHT_MM: u32 = 297;

/// The typeface of one text operation.
#[derive(Clone, Copy, PartialEq, Eq, Structural, Debug)]
pub enum FontStyle {
    /// A bold serif face, for the title and section headings.
    Bold,
    /// A regular serif face, for field lines.
    Roman,
    /// An italic serif face, for the closing attestation.
    Italic,
}

/// One absolutely positioned piece of text on the page.
pub struct TextOp {
    pub text: String,
    pub font: FontStyle,
    pub size: u32,
    pub x: i64,
    pub y: i64,
}

/// The mathematical model of a text operation.
pub struct OpModel {
    pub text: Seq<char>,
    pub font: FontStyle,
    pub size: int,
    pub x: int,
    pub y: int,
}

impl View for TextOp {
    type V = OpModel;

    open spec fn view(&self) -> OpModel {
        OpModel {
            text: self.text@,
            font: self.font,
            size: self.size as int,
            x: self.x as int,
            y: self.y as int,
        }
    }
}

/// The models of a sequence of text operations.
pub open spec fn ops_view(v: Seq<TextOp>) -> Seq<OpModel> {
    v.map_values(|t: TextOp| t@)
}

/// A text operation model.
pub open spec fn op(text: Seq<char>, font: FontStyle, size: int, x: int, y: int) -> OpModel {
    OpModel { text, font, size, x, y }
}

/// The title, the rule drawn under it, and the heading of the personal
/// section.
pub open spec fn title_ops() -> Seq<OpModel> {
    seq![
        op("Professional Resume"@, FontStyle::Bold, 24, 55, 280),
        op("_____________________________________________"@, FontStyle::Bold, 24, 10, 270),
        op("Personal Information"@, FontStyle::Bold, 18, 10, 250),
    ]
}

/// The personal section: one line per field in declaration order, each 10
/// mm below the one before, starting at height 235.
pub open spec fn personal_ops(p: PersonalInfo) -> Seq<OpModel> {
    seq![
        op("Name: "@ + p.name@, FontStyle::Roman, 12, 10, 235),
        op("Sex: "@ + p.sex@, FontStyle::Roman, 12, 10, 225),
        op("Age: "@ + dec_str(p.age as int), FontStyle::Roman, 12, 10, 215),
        op("Religion: "@ + p.religion@, FontStyle::Roman, 12, 10, 205),
        op("Birthdate: "@ + p.birthdate@, FontStyle::Roman, 12, 10, 195),
        op("Father's Name: "@ + p.fathers_name@, FontStyle::Roman, 12, 10, 185),
        op("Mother's Name: "@ + p.mothers_name@, FontStyle::Roman, 12, 10, 175),
        op("Marital Status: "@ + p.marital_status@, FontStyle::Roman, 12, 10, 165),
        op("Phone Number: "@ + p.phone_number@, FontStyle::Roman, 12, 10, 155),
        op("Email: "@ + p.email@, FontStyle::Roman, 12, 10, 145),
        op("Address: "@ + p.address@, FontStyle::Roman, 12, 10, 135),
    ]
}

/// One education row: three fields side by side at horizontal offsets 10,
/// 70 and 130, on one vertical line.
pub open spec fn education_row(e: Education, y: int) -> Seq<OpModel> {
    seq![
        op("Degree: "@ + e.degree@, FontStyle::Roman, 12, 10, y),
        op("Institution: "@ + e.institution@, FontStyle::Roman, 12, 70, y),
        op("Year: "@ + e.year@, FontStyle::Roman, 12, 130, y),
    ]
}

/// The education rows, each 15 mm below the one before.
pub open spec fn education_rows(es: Seq<Education>, y: int) -> Seq<OpModel>
    decreases es.len(),
{
    if es.len() == 0 {
        Seq::empty()
    } else {
        education_row(es[0], y) + education_rows(es.drop_first(), y - 15)
    }
}

/// One experience block: five stacked lines, 10 mm apart.
pub open spec fn experience_block(e: Experience, y: int) -> Seq<OpModel> {
    seq![
        op("Job Title: "@ + e.job_title@, FontStyle::Roman, 12, 10, y),
        op("Company: "@ + e.company@, FontStyle::Roman, 12, 10, y - 10),
        op("Duration: "@ + e.duration@, FontStyle::Roman, 12, 10, y - 20),
        op("Responsibilities: "@ + e.responsibilities@, FontStyle::Roman, 12, 10, y - 30),
        op("Expected Salary: "@ + e.expected_salary@, FontStyle::Roman, 12, 10, y - 40),
    ]
}

/// The experience blocks, with 15 mm of extra space before each next entry.
pub open spec fn experience_blocks(es: Seq<Experience>, y: int) -> Seq<OpModel>
    decreases es.len(),
{
    if es.len() == 0 {
        Seq::empty()
    } else {
        experience_block(es[0], y) + experience_blocks(es.drop_first(), y - 55)
    }
}

/// The signature line, the date line and the closing attestation.
pub open spec fn footer_ops(y: int) -> Seq<OpModel> {
    seq![
        op("Signature: _________________________"@, FontStyle::Roman, 12, 10, y),
        op("Date: _____________________________"@, FontStyle::Roman, 12, 10, y - 10),
        op(
            "I hereby declare that all the information provided above is true and accurate to the best of my knowledge."@,
            FontStyle::Italic,
            10,
            10,
            y - 20,
        ),
    ]
}

/// The complete layout of a resume: title, personal section, education
/// heading and rows, experience heading and blocks, footer, with the
/// vertical cursor moving strictly downward.
pub open spec fn render_spec(r: Resume) -> Seq<OpModel> {
    let ne = r.education@.len() as int;
    let nx = r.experience@.len() as int;
    title_ops() + personal_ops(r.personal_info) + seq![op("Education"@, FontStyle::Bold, 14, 10, 125)]
        + education_rows(r.education@, 113) + seq![
        op("Experience"@, FontStyle::Bold, 14, 10, 113 - 15 * ne),
    ] + experience_blocks(r.experience@, 98 - 15 * ne) + footer_ops(98 - 15 * ne - 55 * nx)
}

proof fn lemma_education_rows_snoc(es: Seq<Education>, y: int, i: int)
    requires
        0 <= i < es.len(),
    ensures
        education_rows(es.take(i + 1), y) == education_rows(es.take(i), y) + education_row(
            es[i],
            y - 15 * i,
        ),
    decreases i,
{
    if i == 0 {
        let t1 = es.take(1);
        assert(t1[0] == es[0]);
        assert(t1.drop_first() =~= Seq::<Education>::empty());
        assert(education_rows(Seq::<Education>::empty(), y - 15) == Seq::<OpModel>::empty());
        assert(education_rows(t1, y) == education_row(es[0], y) + Seq::<OpModel>::empty());
        assert(education_rows(es.take(0), y) == Seq::<OpModel>::empty());
        assert(education_row(es[0], y) + Seq::<OpModel>::empty() =~= education_rows(es.take(0), y)
            + education_row(es[0], y));
    } else {
        let t = es.drop_first();
        assert(es.take(i + 1).drop_first() =~= t.take(i));
        assert(es.take(i).drop_first() =~= t.take(i - 1));
        lemma_education_rows_snoc(t, y - 15, i - 1);
        assert(education_rows(es.take(i + 1), y) == education_row(es[0], y) + (education_rows(
            t.take(i - 1),
            y - 15,
        ) + education_row(t[i - 1], y - 15 - 15 * (i - 1))));
        assert(education_row(es[0], y) + (education_rows(t.take(i - 1), y - 15) + education_row(
            t[i - 1],
            y - 15 * i,
        )) =~= (education_row(es[0], y) + education_rows(t.take(i - 1), y - 15)) + education_row(
            t[i - 1],
            y - 15 * i,
        ));
    }
}

proof fn lemma_experience_blocks_snoc(es: Seq<Experience>, y: int, i: int)
    requires
        0 <= i < es.len(),
    ensures
        experience_blocks(es.take(i + 1), y) == experience_blocks(es.take(i), y)
            + experience_block(es[i], y - 55 * i),
    decreases i,
{
    if i == 0 {
        let t1 = es.take(1);
        assert(t1[0] == es[0]);
        assert(t1.drop_first() =~= Seq::<Experience>::empty());
        assert(experience_blocks(Seq::<Experience>::empty(), y - 55) == Seq::<OpModel>::empty());
        assert(experience_blocks(t1, y) == experience_block(es[0], y) + Seq::<OpModel>::empty());
        assert(experience_blocks(es.take(0), y) == Seq::<OpModel>::empty());
        assert(experience_block(es[0], y) + Seq::<OpModel>::empty() =~= experience_blocks(
            es.take(0),
            y,
        ) + experience_block(es[0], y));
    } else {
        let t = es.drop_first();
        assert(es.take(i + 1).drop_first() =~= t.take(i));
        assert(es.take(i).drop_first() =~= t.take(i - 1));
        lemma_experience_blocks_snoc(t, y - 55, i - 1);
        assert(experience_blocks(es.take(i + 1), y) == experience_block(es[0], y)
            + (experience_blocks(t.take(i - 1), y - 55) + experience_block(
            t[i - 1],
            y - 55 - 55 * (i - 1),
        )));
        assert(experience_block(es[0], y) + (experience_blocks(t.take(i - 1), y - 55)
            + experience_block(t[i - 1], y - 55 * i)) =~= (experience_block(es[0], y)
            + experience_blocks(t.take(i - 1), y - 55)) + experience_block(
            t[i - 1],
            y - 55 * i,
        ));
    }
}

proof fn lemma_education_rows_eq(xs: Seq<Education>, ys: Seq<Education>, y: int)
    requires
        xs.len() == ys.len(),
        forall|i: int| 0 <= i < xs.len() ==> education_eq(#[trigger] xs[i], ys[i]),
    ensures
        education_rows(xs, y) == education_rows(ys, y),
    decreases xs.len(),
{
    if xs.len() == 0 {
        assert(xs =~= ys);
    } else {
        assert forall|i: int| 0 <= i < xs.drop_first().len() implies education_eq(
            #[trigger] xs.drop_first()[i],
            ys.drop_first()[i],
        ) by {
            assert(xs.drop_first()[i] == xs[i + 1]);
            assert(ys.drop_first()[i] == ys[i + 1]);
        }
        lemma_education_rows_eq(xs.drop_first(), ys.drop_first(), y - 15);
        assert(education_row(xs[0], y) =~= education_row(ys[0], y));
    }
}

proof fn lemma_experience_blocks_eq(xs: Seq<Experience>, ys: Seq<Experience>, y: int)
    requires
        xs.len() == ys.len(),
        forall|i: int| 0 <= i < xs.len() ==> experience_eq(#[trigger] xs[i], ys[i]),
    ensures
        experience_blocks(xs, y) == experience_blocks(ys, y),
    decreases xs.len(),
{
    if xs.len() == 0 {
        assert(xs =~= ys);
    } else {
        assert forall|i: int| 0 <= i < xs.drop_first().len() implies experience_eq(
            #[trigger] xs.drop_first()[i],
            ys.drop_first()[i],
        ) by {
            assert(xs.drop_first()[i] == xs[i + 1]);
            assert(ys.drop_first()[i] == ys[i + 1]);
        }
        lemma_experience_blocks_eq(xs.drop_first(), ys.drop_first(), y - 55);
        assert(experience_block(xs[0], y) =~= experience_block(ys[0], y));
    }
}

/// Rendering is deterministic: two resumes that hold the same values, entry
/// by entry, lay out as the same sequence of text operations.
pub proof fn lemma_render_deterministic(a: Resume, b: Resume)
    requires
        resume_eq(a, b),
    ensures
        render_spec(a) == render_spec(b),
{
    assert(personal_ops(a.personal_info) =~= personal_ops(b.personal_info));
    lemma_education_rows_eq(a.education@, b.education@, 113);
    lemma_experience_blocks_eq(
        a.experience@,
        b.experience@,
        98 - 15 * (a.education@.len() as int),
    );
}

/// Joins a field label and its collected value into one line of text.
fn labeled(label: &str, value: &str) -> (r: String)
    ensures
        r@ == label@ + value@,
{
    String::from_str(label).concat(value)
}

/// Appends one text operation, extending the sequence of models by its
/// model.
fn push_op(v: &mut Vec<TextOp>, text: String, font: FontStyle, size: u32, x: i64, y: i64)
    ensures
        ops_view(final(v)@) == ops_view(old(v)@) + seq![
            op(text@, font, size as int, x as int, y as int),
        ],
{
    let ghost t0 = v@;
    v.push(TextOp { text, font, size, x, y });
    proof {
        assert(ops_view(v@) =~= ops_view(t0) + seq![v@[v@.len() - 1]@]);
    }
}

/// Lays out a resume as its complete, deterministic sequence of text
/// operations. The entry counts are bounded only so that every vertical
/// coordinate fits a 64-bit integer; the collector produces one entry of
/// each kind.
pub fn render_ops(resume: &Resume) -> (r: Vec<TextOp>)
    requires
        resume.education@.len() <= 1_000_000_000,
        resume.experience@.len() <= 1_000_000_000,
    ensures
        ops_view(r@) == render_spec(*resume),
{
    let p = &resume.personal_info;
    let mut v: Vec<TextOp> = Vec::new();
    push_op(
        &mut v,
        String::from_str("Professional Resume"),
        FontStyle::Bold,
        24,
        55,
        280,
    );
    push_op(
        &mut v,
        String::from_str("_____________________________________________"),
        FontStyle::Bold,
        24,
        10,
        270,
    );
    push_op(&mut v, String::from_str("Personal Information"), FontStyle::Bold, 18, 10, 250);
    push_op(&mut v, labeled("Name: ", p.name.as_str()), FontStyle::Roman, 12, 10, 235);
    push_op(&mut v, labeled("Sex: ", p.sex.as_str()), FontStyle::Roman, 12, 10, 225);
    let age_text = crate::numbers::u32_to_string(p.age);
    push_op(&mut v, labeled("Age: ", age_text.as_str()), FontStyle::Roman, 12, 10, 215);
    push_op(&mut v, labeled("Religion: ", p.religion.as_str()), FontStyle::Roman, 12, 10, 205);
    push_op(&mut v, labeled("Birthdate: ", p.birthdate.as_str()), FontStyle::Roman, 12, 10, 195);
    push_op(
        &mut v,
        labeled("Father's Name: ", p.fathers_name.as_str()),
        FontStyle::Roman,
        12,
        10,
        185,
    );
    push_op(
        &mut v,
        labeled("Mother's Name: ", p.mothers_name.as_str()),
        FontStyle::Roman,
        12,
        10,
        175,
    );
    push_op(
        &mut v,
        labeled("Marital Status: ", p.marital_status.as_str()),
        FontStyle::Roman,
        12,
        10,
        165,
    );
    push_op(
        &mut v,
        labeled("Phone Number: ", p.phone_number.as_str()),
        FontStyle::Roman,
        12,
        10,
        155,
    );
    push_op(&mut v, labeled("Email: ", p.email.as_str()), FontStyle::Roman, 12, 10, 145);
    push_op(&mut v, labeled("Address: ", p.address.as_str()), FontStyle::Roman, 12, 10, 135);
    push_op(&mut v, String::from_str("Education"), FontStyle::Bold, 14, 10, 125);
    let ghost base_edu = ops_view(v@);
    proof {
        assert(base_edu =~= title_ops() + personal_ops(resume.personal_info) + seq![
            op("Education"@, FontStyle::Bold, 14, 10, 125),
        ]);
    }
    let ne = resume.education.len();
    let mut i: usize = 0;
    let mut y: i64 = 113;
    proof {
        assert(resume.education@.take(0) =~= Seq::<Education>::empty());
        assert(base_edu + education_rows(resume.education@.take(0), 113) =~= base_edu);
    }
    while i < ne
        invariant
            0 <= i <= ne,
            ne == resume.education@.len() <= 1_000_000_000,
            y == 113 - 15 * i,
            ops_view(v@) == base_edu + education_rows(resume.education@.take(i as int), 113),
        decreases ne - i,
    {
        let e = &resume.education[i];
        let ghost before = ops_view(v@);
        push_op(&mut v, labeled("Degree: ", e.degree.as_str()), FontStyle::Roman, 12, 10, y);
        push_op(
            &mut v,
            labeled("Institution: ", e.institution.as_str()),
            FontStyle::Roman,
            12,
            70,
            y,
        );
        push_op(&mut v, labeled("Year: ", e.year.as_str()), FontStyle::Roman, 12, 130, y);
        proof {
            lemma_education_rows_snoc(resume.education@, 113, i as int);
            assert(ops_view(v@) =~= before + education_row(resume.education@[i as int], y as int));
            assert(ops_view(v@) =~= base_edu + education_rows(
                resume.education@.take(i + 1),
                113,
            ));
        }
        i += 1;
        y -= 15;
    }
    proof {
        assert(resume.education@.take(ne as int) =~= resume.education@);
    }
    push_op(&mut v, String::from_str("Experience"), FontStyle::Bold, 14, 10, y);
    let ghost base_exp = ops_view(v@);
    proof {
        assert(base_exp =~= base_edu + education_rows(resume.education@, 113) + seq![
            op("Experience"@, FontStyle::Bold, 14, 10, 113 - 15 * resume.education@.len()),
        ]);
    }
    y -= 15;
    let nx = resume.experience.len();
    let mut j: usize = 0;
    let ghost y_exp = y as int;
    proof {
        assert(resume.experience@.take(0) =~= Seq::<Experience>::empty());
        assert(base_exp + experience_blocks(resume.experience@.take(0), y_exp) =~= base_exp);
    }
    while j < nx
        invariant
            0 <= j <= nx,
            nx == resume.experience@.len() <= 1_000_000_000,
            resume.education@.len() <= 1_000_000_000,
            y_exp == 98 - 15 * (resume.education@.len() as int),
            y == y_exp - 55 * j,
            ops_view(v@) == base_exp + experience_blocks(resume.experience@.take(j as int), y_exp),
        decreases nx - j,
    {
        let e = &resume.experience[j];
        let ghost before = ops_view(v@);
        push_op(&mut v, labeled("Job Title: ", e.job_title.as_str()), FontStyle::Roman, 12, 10, y);
        push_op(
            &mut v,
            labeled("Company: ", e.company.as_str()),
            FontStyle::Roman,
            12,
            10,
            y - 10,
        );
        push_op(
            &mut v,
            labeled("Duration: ", e.duration.as_str()),
            FontStyle::Roman,
            12,
            10,
            y - 20,
        );
        push_op(
            &mut v,
            labeled("Responsibilities: ", e.responsibilities.as_str()),
            FontStyle::Roman,
            12,
            10,
            y - 30,
        );
        push_op(
            &mut v,
            labeled("Expected Salary: ", e.expected_salary.as_str()),
            FontStyle::Roman,
            12,
            10,
            y - 40,
        );
        proof {
            lemma_experience_blocks_snoc(resume.experience@, y_exp, j as int);
            assert(ops_view(v@) =~= before + experience_block(
                resume.experience@[j as int],
                y as int,
            ));
            assert(ops_view(v@) =~= base_exp + experience_blocks(
                resume.experience@.take(j + 1),
                y_exp,
            ));
        }
        j += 1;
        y -= 55;
    }
    proof {
        assert(resume.experience@.take(nx as int) =~= resume.experience@);
    }
    push_op(
        &mut v,
        String::from_str("Signature: _________________________"),
        FontStyle::Roman,
        12,
        10,
        y,
    );
    push_op(
        &mut v,
        String::from_str("Date: _____________________________"),
        FontStyle::Roman,
        12,
        10,
        y - 10,
    );
    push_op(
        &mut v,
        String::from_str(
            "I hereby declare that all the information provided above is true and accurate to the best of my knowledge.",
        ),
        FontStyle::Italic,
        10,
        10,
        y - 20,
    );
    proof {
        assert(ops_view(v@) =~= render_spec(*resume));
    }
    v
}

} // verus!
