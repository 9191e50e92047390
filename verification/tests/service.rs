use extract_content::service::{extract_pdf_text, reply_for_extraction, RequestOutcome};

/// Runs the real extractor on a buffer and wraps its result as the outcome
/// the service is handed, the way the server does.
fn run_extractor(bytes: &[u8]) -> RequestOutcome {
    RequestOutcome::Extracted(
        pdf_extract::extract_text_from_mem(bytes)
            .map(String::into_bytes)
            .map_err(|e| e.to_string().into_bytes()),
    )
}

/// Builds a small, well-formed PDF in memory, one page per entry of `texts`,
/// each page showing its text in the built-in Helvetica font. The texts must
/// stay clear of parentheses and backslashes, which PDF string literals
/// escape.
fn build_pdf(texts: &[&str]) -> Vec<u8> {
    let n = texts.len();
    let font_obj = 3 + 2 * n;
    let mut bodies: Vec<String> = Vec::new();
    bodies.push("<< /Type /Catalog /Pages 2 0 R >>".to_string());
    let kids = (0..n)
        .map(|i| format!("{} 0 R", 3 + 2 * i))
        .collect::<Vec<_>>()
        .join(" ");
    bodies.push(format!("<< /Type /Pages /Kids [ {} ] /Count {} >>", kids, n));
    for (i, text) in texts.iter().enumerate() {
        let content_obj = 4 + 2 * i;
        bodies.push(format!(
            "<< /Type /Page /Parent 2 0 R /MediaBox [ 0 0 612 792 ] \
             /Resources << /Font << /F1 {} 0 R >> >> /Contents {} 0 R >>",
            font_obj, content_obj
        ));
        let stream = format!("BT /F1 12 Tf 72 720 Td ({}) Tj ET", text);
        bodies.push(format!(
            "<< /Length {} >>\nstream\n{}\nendstream",
            stream.len(),
            stream
        ));
    }
    bodies.push("<< /Type /Font /Subtype /Type1 /BaseFont /Helvetica >>".to_string());

    let mut out = String::from("%PDF-1.4\n");
    let mut offsets: Vec<usize> = Vec::new();
    for (i, body) in bodies.iter().enumerate() {
        offsets.push(out.len());
        out.push_str(&format!("{} 0 obj\n{}\nendobj\n", i + 1, body));
    }
    let xref_pos = out.len();
    let count = bodies.len() + 1;
    out.push_str(&format!("xref\n0 {}\n", count));
    out.push_str("0000000000 65535 f \n");
    for off in &offsets {
        out.push_str(&format!("{:010} 00000 n \n", off));
    }
    out.push_str(&format!(
        "trailer\n<< /Size {} /Root 1 0 R >>\nstartxref\n{}\n%%EOF\n",
        count, xref_pos
    ));
    out.into_bytes()
}

#[test]
fn read_failure_gives_500_with_read_diagnostic() {
    let reply = extract_pdf_text(RequestOutcome::ReadFailed(
        b"No such file or directory (os error 2)".to_vec(),
    ));
    assert_eq!(reply.status, 500);
    assert!(!reply.json_body);
    assert_eq!(
        reply.body,
        b"Erreur lors de la lecture du fichier : No such file or directory (os error 2)".to_vec()
    );
}

#[test]
fn invalid_pdf_gives_500_with_extraction_diagnostic() {
    let reply = extract_pdf_text(run_extractor(b"ceci n'est pas un PDF"));
    assert_eq!(reply.status, 500);
    assert!(!reply.json_body);
    let prefix = b"Erreur lors de l'extraction du texte : ";
    assert!(reply.body.len() > prefix.len());
    assert_eq!(&reply.body[..prefix.len()], &prefix[..]);
}

#[test]
fn extraction_outcome_success_reply_is_exact() {
    let reply = reply_for_extraction(Ok(b"Bonjour".to_vec()));
    assert_eq!(reply.status, 200);
    assert!(reply.json_body);
    assert_eq!(reply.body, b"{\"text\":\"Bonjour\"}".to_vec());
}

#[test]
fn extraction_outcome_failure_reply_is_exact() {
    let reply = reply_for_extraction(Err(b"document non pris en charge".to_vec()));
    assert_eq!(reply.status, 500);
    assert!(!reply.json_body);
    assert_eq!(
        reply.body,
        b"Erreur lors de l'extraction du texte : document non pris en charge".to_vec()
    );
}

#[test]
fn valid_pdf_gives_200_with_a_text_field() {
    let reply = extract_pdf_text(run_extractor(&build_pdf(&["Bonjour tout le monde"])));
    assert_eq!(reply.status, 200);
    assert!(reply.json_body);
    let value: serde_json::Value = serde_json::from_slice(&reply.body).unwrap();
    let text = value.get("text").expect("a text field");
    assert!(text.is_string());
    assert!(text.as_str().unwrap().contains("Bonjour tout le monde"));
}

#[test]
fn same_request_twice_gives_identical_replies() {
    let pdf = build_pdf(&["Toujours le meme texte"]);
    let first = extract_pdf_text(run_extractor(&pdf));
    let second = extract_pdf_text(run_extractor(&pdf));
    assert_eq!(first.status, 200);
    assert_eq!(first.status, second.status);
    assert_eq!(first.json_body, second.json_body);
    assert_eq!(first.body, second.body);
}

#[test]
fn three_page_document_gives_golden_text() {
    let pdf = build_pdf(&["Premiere page", "Deuxieme page", "Troisieme page"]);
    let reply = extract_pdf_text(run_extractor(&pdf));
    assert_eq!(reply.status, 200);
    let value: serde_json::Value = serde_json::from_slice(&reply.body).unwrap();
    assert_eq!(
        value.get("text").unwrap().as_str().unwrap(),
        "\n\nPremiere pageDeuxieme pageTroisieme page"
    );
}
