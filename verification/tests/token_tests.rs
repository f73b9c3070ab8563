use capl_analyzer::token::Token;

#[test]
fn test_keyword_recognition() {
    assert_eq!(Token::from_keyword("if"), Some(Token::If));
    assert_eq!(Token::from_keyword("on"), Some(Token::On));
    assert_eq!(Token::from_keyword("timer"), Some(Token::Timer));
    assert_eq!(Token::from_keyword("not_a_keyword"), None);
}

#[test]
fn test_is_type() {
    assert!(Token::Int.is_type());
    assert!(Token::Message.is_type());
    assert!(!Token::If.is_type());
}

#[test]
fn test_is_assignment() {
    assert!(Token::Assign.is_assignment());
    assert!(Token::PlusAssign.is_assignment());
    assert!(!Token::Plus.is_assignment());
}

#[test]
fn test_round_trip_all_keywords() {
    assert_eq!(Token::from_keyword("if"), Some(Token::If));
    assert_eq!(Token::from_keyword("else"), Some(Token::Else));
    assert_eq!(Token::from_keyword("switch"), Some(Token::Switch));
    assert_eq!(Token::from_keyword("case"), Some(Token::Case));
    assert_eq!(Token::from_keyword("default"), Some(Token::Default));
    assert_eq!(Token::from_keyword("for"), Some(Token::For));
    assert_eq!(Token::from_keyword("while"), Some(Token::While));
    assert_eq!(Token::from_keyword("do"), Some(Token::Do));
    assert_eq!(Token::from_keyword("break"), Some(Token::Break));
    assert_eq!(Token::from_keyword("continue"), Some(Token::Continue));
    assert_eq!(Token::from_keyword("return"), Some(Token::Return));
    assert_eq!(Token::from_keyword("on"), Some(Token::On));
    assert_eq!(Token::from_keyword("start"), Some(Token::Start));
    assert_eq!(Token::from_keyword("preStart"), Some(Token::PreStart));
    assert_eq!(Token::from_keyword("preStop"), Some(Token::PreStop));
    assert_eq!(Token::from_keyword("stopMeasurement"), Some(Token::StopMeasurement));
    assert_eq!(Token::from_keyword("key"), Some(Token::Key));
    assert_eq!(Token::from_keyword("envVar"), Some(Token::EnvVar));
    assert_eq!(Token::from_keyword("sysVar"), Some(Token::SysVar));
    assert_eq!(Token::from_keyword("sysVar_change"), Some(Token::SysVarChange));
    assert_eq!(Token::from_keyword("sysVar_update"), Some(Token::SysVarUpdate));
    assert_eq!(Token::from_keyword("signal"), Some(Token::Signal));
    assert_eq!(Token::from_keyword("signal_update"), Some(Token::SignalUpdate));
    assert_eq!(Token::from_keyword("PDU"), Some(Token::Pdu));
    assert_eq!(Token::from_keyword("byte"), Some(Token::Byte));
    assert_eq!(Token::from_keyword("word"), Some(Token::Word));
    assert_eq!(Token::from_keyword("dword"), Some(Token::Dword));
    assert_eq!(Token::from_keyword("int"), Some(Token::Int));
    assert_eq!(Token::from_keyword("long"), Some(Token::Long));
    assert_eq!(Token::from_keyword("int64"), Some(Token::Int64));
    assert_eq!(Token::from_keyword("qword"), Some(Token::Qword));
    assert_eq!(Token::from_keyword("float"), Some(Token::Float));
    assert_eq!(Token::from_keyword("double"), Some(Token::Double));
    assert_eq!(Token::from_keyword("char"), Some(Token::Char));
    assert_eq!(Token::from_keyword("struct"), Some(Token::Struct));
    assert_eq!(Token::from_keyword("enum"), Some(Token::Enum));
    assert_eq!(Token::from_keyword("timer"), Some(Token::Timer));
    assert_eq!(Token::from_keyword("msTimer"), Some(Token::MsTimer));
    assert_eq!(Token::from_keyword("message"), Some(Token::Message));
    assert_eq!(Token::from_keyword("File"), Some(Token::File));
    assert_eq!(Token::from_keyword("TcpSocket"), Some(Token::TcpSocket));
    assert_eq!(Token::from_keyword("UdpSocket"), Some(Token::UdpSocket));
    assert_eq!(Token::from_keyword("dbMsg"), Some(Token::DbMsg));
    assert_eq!(Token::from_keyword("Signal"), Some(Token::SignalPtr));
    assert_eq!(Token::from_keyword("sysvar"), Some(Token::SysvarPtr));
    assert_eq!(Token::from_keyword("const"), Some(Token::Const));
}

#[test]
fn test_non_membership() {
    assert_eq!(Token::from_keyword("not_a_keyword"), None);
    assert_eq!(Token::from_keyword(""), None);
    assert_eq!(Token::from_keyword("If"), None);
    assert_eq!(Token::from_keyword("SIGNAL"), None);
}

#[test]
fn test_case_sensitivity() {
    let lower = Token::from_keyword("signal");
    let upper = Token::from_keyword("Signal");
    assert_eq!(lower, Some(Token::Signal));
    assert_eq!(upper, Some(Token::SignalPtr));
    assert_ne!(lower, upper);

    let event = Token::from_keyword("sysVar");
    let pointer = Token::from_keyword("sysvar");
    assert_eq!(event, Some(Token::SysVar));
    assert_eq!(pointer, Some(Token::SysvarPtr));
    assert_ne!(event, pointer);
}

#[test]
fn test_keyword_type_overlap() {
    assert!(Token::Struct.is_keyword() && Token::Struct.is_type());
    assert!(Token::Enum.is_keyword() && Token::Enum.is_type());
    assert!(Token::If.is_keyword() && !Token::If.is_type());
    assert!(Token::Const.is_keyword() && !Token::Const.is_type());
    assert!(!Token::Int.is_keyword() && Token::Int.is_type());
    assert!(!Token::MsTimer.is_keyword() && Token::MsTimer.is_type());
    assert!(!Token::SignalPtr.is_keyword() && Token::SignalPtr.is_type());
}

#[test]
fn test_predicates_false_on_non_words() {
    let samples = vec![
        Token::Identifier("x".to_string()),
        Token::IntLiteral(7),
        Token::HexLiteral("0xFF".to_string()),
        Token::CharLiteral('q'),
        Token::StringLiteral("hi".to_string()),
        Token::Semicolon,
        Token::LeftParen,
        Token::Eof,
        Token::Unknown('#'),
    ];
    for t in &samples {
        assert!(!t.is_keyword());
        assert!(!t.is_type());
        assert!(!t.is_assignment());
    }
}

#[test]
fn test_assignment_set_exact() {
    let yes = vec![
        Token::Assign,
        Token::PlusAssign,
        Token::MinusAssign,
        Token::StarAssign,
        Token::SlashAssign,
        Token::PercentAssign,
        Token::AndAssign,
        Token::OrAssign,
        Token::XorAssign,
        Token::LeftShiftAssign,
        Token::RightShiftAssign,
    ];
    for t in &yes {
        assert!(t.is_assignment());
    }
    let no = vec![
        Token::PlusPlus,
        Token::MinusMinus,
        Token::Equal,
        Token::NotEqual,
        Token::Less,
        Token::LessEqual,
        Token::Greater,
        Token::GreaterEqual,
        Token::LogicalAnd,
        Token::LogicalOr,
        Token::Ampersand,
        Token::Pipe,
    ];
    for t in &no {
        assert!(!t.is_assignment());
    }
}

#[test]
fn test_payload_equality() {
    assert_eq!(
        Token::Identifier("abc".to_string()),
        Token::Identifier("abc".to_string())
    );
    assert_ne!(
        Token::Identifier("abc".to_string()),
        Token::Identifier("abd".to_string())
    );
    assert_ne!(Token::IntLiteral(5), Token::IntLiteral(6));
    assert_eq!(Token::IntLiteral(5), Token::IntLiteral(5));
    assert_ne!(
        Token::HexLiteral("0x1A".to_string()),
        Token::IntLiteral(26)
    );
    assert_eq!(
        Token::HexLiteral("0x1A".to_string()),
        Token::HexLiteral("0x1A".to_string())
    );
    assert_eq!(Token::CharLiteral('z'), Token::CharLiteral('z'));
    assert_ne!(Token::CharLiteral('z'), Token::CharLiteral('y'));
    assert_ne!(
        Token::StringLiteral("z".to_string()),
        Token::CharLiteral('z')
    );
    assert_eq!(Token::Unknown('@'), Token::Unknown('@'));
    assert_ne!(Token::Unknown('@'), Token::Eof);
}

#[test]
fn test_float_literal_bits_equality() {
    let pi: f64 = 3.14159;
    let e: f64 = 2.71828;
    assert_eq!(
        Token::FloatLiteral(pi.to_bits()),
        Token::FloatLiteral(pi.to_bits())
    );
    assert_ne!(
        Token::FloatLiteral(pi.to_bits()),
        Token::FloatLiteral(e.to_bits())
    );
}

#[test]
fn test_event_block_scenario() {
    let spellings = vec!["on", "start", "{", "msTimer", "t", ";", "}"];
    let mut tokens: Vec<Token> = Vec::new();
    for s in &spellings {
        let t = match *s {
            "{" => Token::LeftBrace,
            "}" => Token::RightBrace,
            ";" => Token::Semicolon,
            other => match Token::from_keyword(other) {
                Some(k) => k,
                None => Token::Identifier(other.to_string()),
            },
        };
        tokens.push(t);
    }
    let expected = vec![
        Token::On,
        Token::Start,
        Token::LeftBrace,
        Token::MsTimer,
        Token::Identifier("t".to_string()),
        Token::Semicolon,
        Token::RightBrace,
    ];
    assert_eq!(tokens, expected);
    for (i, t) in tokens.iter().enumerate() {
        assert_eq!(t.is_keyword(), i == 0 || i == 1);
        assert_eq!(t.is_type(), i == 3);
    }
}
