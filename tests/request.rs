use quick_assessment::prompt::{generate_chat_gpt_prompt, TEMPLATE_HEAD, TEMPLATE_MIDDLE, TEMPLATE_TAIL};
use quick_assessment::raw_example::{generate_sample, EXAMPLE1_PROMPT, EXAMPLE2_SAMPLE_RESULT};
use quick_assessment::request::{
    compose, gen_request_content, ComposeError, Difficulty, LengthPreference, LONG_CLAUSE,
    NORMAL_CLAUSE, SHORT_CLAUSE, VARIED_RATINGS_CLAUSE,
};

const LENGTHS: [LengthPreference; 3] =
    [LengthPreference::Short, LengthPreference::Normal, LengthPreference::Long];
const DIFFICULTIES: [Difficulty; 4] =
    [Difficulty::NoPreference, Difficulty::Easy, Difficulty::Medium, Difficulty::Hard];

fn clause_of(l: LengthPreference) -> &'static str {
    match l {
        LengthPreference::Short => SHORT_CLAUSE,
        LengthPreference::Normal => NORMAL_CLAUSE,
        LengthPreference::Long => LONG_CLAUSE,
    }
}

#[test]
fn test_local_data() {
    match gen_request_content("gen hello world".to_string(), "".to_string(), 0, 0) {
        Ok(r) => {
            println!("{}", r);
        }
        Err(e) => {
            println!("{}", format!("{:?}", e));
        }
    }
}

#[test]
fn empty_prompt_is_rejected_for_any_other_input() {
    for prev in ["", "(none)", "some earlier answer"] {
        for d in DIFFICULTIES {
            for l in LENGTHS {
                let r = compose(String::new(), prev.to_string(), d, l);
                assert_eq!(r, Err(ComposeError::EmptyPrompt));
            }
        }
    }
    for i in 0..5 {
        assert_eq!(
            gen_request_content(String::new(), "x".to_string(), i, i),
            Err(ComposeError::EmptyPrompt)
        );
    }
}

#[test]
fn whitespace_prompt_is_not_empty() {
    assert!(compose(" ".to_string(), String::new(), Difficulty::NoPreference, LengthPreference::Normal).is_ok());
}

#[test]
fn compose_is_deterministic() {
    for d in DIFFICULTIES {
        for l in LENGTHS {
            let a = compose("p".to_string(), "q".to_string(), d, l).unwrap();
            let b = compose("p".to_string(), "q".to_string(), d, l).unwrap();
            assert_eq!(a, b);
        }
    }
}

#[test]
fn empty_previous_turn_shows_sentinel_and_no_markers() {
    let r = compose(
        "Write a parser".to_string(),
        String::new(),
        Difficulty::NoPreference,
        LengthPreference::Normal,
    )
    .unwrap();
    assert!(r.contains("(none)"));
    assert!(!r.contains("{CURRENT_PROMPT}"));
    assert!(!r.contains("{PREVIOUS_TURN_ANSWER}"));
    assert!(r.contains("The prompt:\nWrite a parser\n\nThe previous turn answer:\n(none)\n---\n"));
}

#[test]
fn previous_turn_is_placed_verbatim() {
    let r = generate_chat_gpt_prompt("P".to_string(), "earlier".to_string());
    assert_eq!(r, format!("{}P{}earlier{}", TEMPLATE_HEAD, TEMPLATE_MIDDLE, TEMPLATE_TAIL));
    assert!(!r.contains("(none)"));
    let e = generate_chat_gpt_prompt("P".to_string(), String::new());
    assert_eq!(e, format!("{}P{}(none){}", TEMPLATE_HEAD, TEMPLATE_MIDDLE, TEMPLATE_TAIL));
}

#[test]
fn exactly_one_length_clause() {
    for l in LENGTHS {
        let r = compose("p".to_string(), String::new(), Difficulty::Medium, l).unwrap();
        for other in LENGTHS {
            let n = r.matches(clause_of(other)).count();
            if other == l {
                assert_eq!(n, 1);
            } else {
                assert_eq!(n, 0);
            }
        }
        assert!(r.ends_with(clause_of(l)));
    }
}

#[test]
fn length_indices_choose_clauses() {
    let short = gen_request_content("p".to_string(), String::new(), 0, 0).unwrap();
    let normal = gen_request_content("p".to_string(), String::new(), 0, 1).unwrap();
    let long = gen_request_content("p".to_string(), String::new(), 0, 2).unwrap();
    let other = gen_request_content("p".to_string(), String::new(), 0, 9).unwrap();
    assert!(short.ends_with(SHORT_CLAUSE));
    assert!(normal.ends_with(NORMAL_CLAUSE));
    assert!(long.ends_with(LONG_CLAUSE));
    assert_eq!(other, normal);
}

#[test]
fn preference_clause_names_rating() {
    let none = compose("p".to_string(), String::new(), Difficulty::NoPreference, LengthPreference::Short).unwrap();
    assert!(!none.contains("I do have a preference"));
    for (d, name) in [(Difficulty::Easy, "Easy"), (Difficulty::Medium, "Medium"), (Difficulty::Hard, "Hard")] {
        let r = compose("p".to_string(), String::new(), d, LengthPreference::Short).unwrap();
        let expected = format!("\nI do have a preference for the overall rating of {}\n", name);
        assert_eq!(r.matches(expected.as_str()).count(), 1);
    }
    let by_index = gen_request_content("p".to_string(), String::new(), 7, 0).unwrap();
    assert!(by_index.contains("overall rating of Hard\n"));
}

#[test]
fn request_is_assembled_in_order() {
    let r = compose("p".to_string(), "q".to_string(), Difficulty::NoPreference, LengthPreference::Long).unwrap();
    let expected = format!(
        "{}{}{}{}",
        generate_chat_gpt_prompt("p".to_string(), "q".to_string()),
        generate_sample(),
        VARIED_RATINGS_CLAUSE,
        LONG_CLAUSE
    );
    assert_eq!(r, expected);
}

#[test]
fn samples_hold_both_examples_in_order() {
    let s = generate_sample();
    let one = s.find("Example 1:").unwrap();
    let two = s.find("Example 2:").unwrap();
    assert!(one < two);
    assert!(s.starts_with("\n---Example 1:\nPrevious Answer:"));
    assert!(s.contains(&format!("Current Prompt:{}\n", EXAMPLE1_PROMPT)));
    assert!(s.ends_with(&format!("Expected Markdown {}\n---\n", EXAMPLE2_SAMPLE_RESULT)));
}

#[test]
fn compose_error_message() {
    assert_eq!(ComposeError::EmptyPrompt.message(), "Prompt cannot be empty.");
}
