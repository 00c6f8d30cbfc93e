use resume_gen::model::{Education, Experience, PersonalInfo, Resume};
use resume_gen::render::{render_ops, FontStyle, PAGE_HEIGHT_MM, PAGE_WIDTH_MM};

fn sample_resume() -> Resume {
    Resume {
        personal_info: PersonalInfo {
            name: "John Smith".to_string(),
            sex: "Male".to_string(),
            age: 37,
            religion: "None".to_string(),
            birthdate: "January first".to_string(),
            fathers_name: "Robert Smith".to_string(),
            mothers_name: "Mary Smith".to_string(),
            marital_status: "Single".to_string(),
            phone_number: "+1-555-1234".to_string(),
            email: "a.b@example.com".to_string(),
            address: "12 Main Street".to_string(),
        },
        education: vec![
            Education {
                degree: "Bachelor of Science".to_string(),
                institution: "State University".to_string(),
                year: "2010".to_string(),
            },
        ],
        experience: vec![
            Experience {
                job_title: "Engineer".to_string(),
                company: "Acme".to_string(),
                duration: "five years".to_string(),
                responsibilities: "building things".to_string(),
                expected_salary: "50000".to_string(),
            },
        ],
    }
}

#[test]
fn page_is_a4() {
    assert_eq!(PAGE_WIDTH_MM, 210);
    assert_eq!(PAGE_HEIGHT_MM, 297);
}

#[test]
fn layout_has_one_op_per_line() {
    let ops = render_ops(&sample_resume());
    // 3 title ops, 11 personal lines, 1 education heading, 3 fields in the
    // one education row, 1 experience heading, 5 lines in the one
    // experience block, 3 footer lines.
    assert_eq!(ops.len(), 27);
}

#[test]
fn title_block_leads_the_page() {
    let ops = render_ops(&sample_resume());
    assert_eq!(ops[0].text, "Professional Resume");
    assert_eq!(ops[0].font, FontStyle::Bold);
    assert_eq!(ops[0].size, 24);
    assert_eq!(ops[0].x, 55);
    assert_eq!(ops[0].y, 280);
    assert_eq!(ops[1].text, "_____________________________________________");
    assert_eq!(ops[2].text, "Personal Information");
    assert_eq!(ops[2].font, FontStyle::Bold);
}

#[test]
fn personal_lines_descend_ten_mm_apart() {
    let ops = render_ops(&sample_resume());
    let expected = [
        "Name: John Smith",
        "Sex: Male",
        "Age: 37",
        "Religion: None",
        "Birthdate: January first",
        "Father's Name: Robert Smith",
        "Mother's Name: Mary Smith",
        "Marital Status: Single",
        "Phone Number: +1-555-1234",
        "Email: a.b@example.com",
        "Address: 12 Main Street",
    ];
    for (k, want) in expected.iter().enumerate() {
        let op = &ops[3 + k];
        assert_eq!(op.text, *want);
        assert_eq!(op.font, FontStyle::Roman);
        assert_eq!(op.size, 12);
        assert_eq!(op.x, 10);
        assert_eq!(op.y, 235 - 10 * k as i64);
    }
}

#[test]
fn education_row_places_three_fields_side_by_side() {
    let ops = render_ops(&sample_resume());
    assert_eq!(ops[14].text, "Education");
    assert_eq!(ops[14].font, FontStyle::Bold);
    assert_eq!(ops[14].y, 125);
    assert_eq!(ops[15].text, "Degree: Bachelor of Science");
    assert_eq!(ops[16].text, "Institution: State University");
    assert_eq!(ops[17].text, "Year: 2010");
    assert_eq!(ops[15].x, 10);
    assert_eq!(ops[16].x, 70);
    assert_eq!(ops[17].x, 130);
    assert_eq!(ops[15].y, 113);
    assert_eq!(ops[16].y, 113);
    assert_eq!(ops[17].y, 113);
}

#[test]
fn experience_block_stacks_five_lines() {
    let ops = render_ops(&sample_resume());
    assert_eq!(ops[18].text, "Experience");
    assert_eq!(ops[18].y, 98);
    let expected = [
        "Job Title: Engineer",
        "Company: Acme",
        "Duration: five years",
        "Responsibilities: building things",
        "Expected Salary: 50000",
    ];
    for (k, want) in expected.iter().enumerate() {
        let op = &ops[19 + k];
        assert_eq!(op.text, *want);
        assert_eq!(op.x, 10);
        assert_eq!(op.y, 83 - 10 * k as i64);
    }
}

#[test]
fn footer_closes_the_page() {
    let ops = render_ops(&sample_resume());
    assert_eq!(ops[24].text, "Signature: _________________________");
    assert_eq!(ops[24].y, 28);
    assert_eq!(ops[25].text, "Date: _____________________________");
    assert_eq!(ops[25].y, 18);
    assert_eq!(
        ops[26].text,
        "I hereby declare that all the information provided above is true and accurate to the best of my knowledge.",
    );
    assert_eq!(ops[26].font, FontStyle::Italic);
    assert_eq!(ops[26].size, 10);
    assert_eq!(ops[26].y, 8);
}

#[test]
fn cursor_never_moves_back_up() {
    let ops = render_ops(&sample_resume());
    for k in 1..ops.len() {
        assert!(ops[k].y <= ops[k - 1].y);
    }
}

#[test]
fn two_education_entries_make_two_rows() {
    let mut resume = sample_resume();
    resume.education.push(Education {
        degree: "Master of Science".to_string(),
        institution: "Tech Institute".to_string(),
        year: "2012".to_string(),
    });
    let ops = render_ops(&resume);
    assert_eq!(ops.len(), 30);
    assert_eq!(ops[18].text, "Degree: Master of Science");
    assert_eq!(ops[18].y, 98);
    assert_eq!(ops[21].text, "Experience");
    assert_eq!(ops[21].y, 83);
}

#[test]
fn rendering_is_deterministic() {
    let first = render_ops(&sample_resume());
    let second = render_ops(&sample_resume());
    assert_eq!(first.len(), second.len());
    for k in 0..first.len() {
        assert_eq!(first[k].text, second[k].text);
        assert_eq!(first[k].font, second[k].font);
        assert_eq!(first[k].size, second[k].size);
        assert_eq!(first[k].x, second[k].x);
        assert_eq!(first[k].y, second[k].y);
    }
}
