use printpdf::{BuiltinFont, Mm, OffsetDateTime, PdfDocument};
use resume_gen::model::{Education, Experience, PersonalInfo, Resume};
use resume_gen::render::{render_ops, FontStyle, TextOp, PAGE_HEIGHT_MM, PAGE_WIDTH_MM};

fn sample_resume() -> Resume {
    Resume {
        personal_info: PersonalInfo {
            name: "John Smith".to_string(),
            sex: "Male".to_string(),
            age: 37,
            religion: "None".to_string(),
            birthdate: "January first".to_string(),
            fathers_name: "Robert Smith".to_string(),
            mothers_name: "Mary Smith".to_string(),
            marital_status: "Single".to_string(),
            phone_number: "+1-555-1234".to_string(),
            email: "a.b@example.com".to_string(),
            address: "12 Main Street".to_string(),
        },
        education: vec![
            Education {
                degree: "Bachelor of Science".to_string(),
                institution: "State University".to_string(),
                year: "2010".to_string(),
            },
        ],
        experience: vec![
            Experience {
                job_title: "Engineer".to_string(),
                company: "Acme".to_string(),
                duration: "five years".to_string(),
                responsibilities: "building things".to_string(),
                expected_salary: "50000".to_string(),
            },
        ],
    }
}

// Mirrors the application's document emission: one A4 page, the three
// builtin serif faces, one text placement per operation.
fn emit_pdf(ops: &[TextOp]) -> Vec<u8> {
    let (doc, page1, layer1) = PdfDocument::new(
        "Resume",
        Mm(PAGE_WIDTH_MM as f32),
        Mm(PAGE_HEIGHT_MM as f32),
        "Layer 1",
    );
    let doc = doc
        .with_creation_date(OffsetDateTime::UNIX_EPOCH)
        .with_metadata_date(OffsetDateTime::UNIX_EPOCH)
        .with_mod_date(OffsetDateTime::UNIX_EPOCH);
    let font_bold = doc.add_builtin_font(BuiltinFont::TimesBold).unwrap();
    let font_light = doc.add_builtin_font(BuiltinFont::TimesRoman).unwrap();
    let font_italic = doc.add_builtin_font(BuiltinFont::TimesItalic).unwrap();
    let layer = doc.get_page(page1).get_layer(layer1);
    for op in ops {
        let font = match op.font {
            FontStyle::Bold => &font_bold,
            FontStyle::Roman => &font_light,
            FontStyle::Italic => &font_italic,
        };
        layer.use_text(op.text.clone(), op.size as f32, Mm(op.x as f32), Mm(op.y as f32), font);
    }
    doc.save_to_bytes().unwrap()
}

#[test]
fn collected_resume_renders_to_a_pdf() {
    let inputs: Vec<String> = vec![
        "John Smith".to_string(),
        "Male".to_string(),
        "37".to_string(),
        "None".to_string(),
        "January first".to_string(),
        "Robert Smith".to_string(),
        "Mary Smith".to_string(),
        "Single".to_string(),
        "+1-555-1234".to_string(),
        "a.b@example.com".to_string(),
        "12 Main Street".to_string(),
        "Bachelor of Science".to_string(),
        "State University".to_string(),
        "2010".to_string(),
        "Engineer".to_string(),
        "Acme".to_string(),
        "five years".to_string(),
        "building things".to_string(),
        "50000".to_string(),
    ];
    let resume = resume_gen::collect::collect_resume(&inputs).unwrap();
    let bytes = emit_pdf(&render_ops(&resume));
    assert!(bytes.starts_with(b"%PDF"));
    let parsed = lopdf::Document::load_mem(&bytes).unwrap();
    assert_eq!(parsed.get_pages().len(), 1);
}

#[test]
fn rendered_document_is_a_one_page_pdf() {
    let ops = render_ops(&sample_resume());
    let bytes = emit_pdf(&ops);
    assert!(!bytes.is_empty());
    assert!(bytes.starts_with(b"%PDF"));
    let parsed = lopdf::Document::load_mem(&bytes).expect("the output must parse as a PDF");
    assert_eq!(parsed.get_pages().len(), 1);
}

#[test]
fn page_content_is_byte_identical_across_renders() {
    // Producer metadata (document and instance identifiers) varies by
    // design; the structural page content must not.
    let first = emit_pdf(&render_ops(&sample_resume()));
    let second = emit_pdf(&render_ops(&sample_resume()));
    let doc1 = lopdf::Document::load_mem(&first).unwrap();
    let doc2 = lopdf::Document::load_mem(&second).unwrap();
    let pages1: Vec<_> = doc1.get_pages().values().cloned().collect();
    let pages2: Vec<_> = doc2.get_pages().values().cloned().collect();
    assert_eq!(pages1.len(), 1);
    assert_eq!(pages2.len(), 1);
    let content1 = doc1.get_page_content(pages1[0]);
    let content2 = doc2.get_page_content(pages2[0]);
    assert!(!content1.is_empty());
    assert_eq!(content1, content2);
}

#[test]
fn page_content_mentions_every_field() {
    let ops = render_ops(&sample_resume());
    let bytes = emit_pdf(&ops);
    let mut doc = lopdf::Document::load_mem(&bytes).unwrap();
    doc.decompress();
    let pages: Vec<_> = doc.get_pages().values().cloned().collect();
    let content = lopdf::content::Content::decode(&doc.get_page_content(pages[0])).unwrap();
    let mut shown: Vec<String> = Vec::new();
    for operation in &content.operations {
        if operation.operator == "Tj" {
            for operand in &operation.operands {
                if let lopdf::Object::String(text_bytes, _) = operand {
                    shown.push(String::from_utf8_lossy(text_bytes).to_string());
                }
            }
        }
    }
    assert_eq!(shown.len(), ops.len());
    for (k, op) in ops.iter().enumerate() {
        assert_eq!(shown[k], op.text, "text placement {} differs", k);
    }
}
