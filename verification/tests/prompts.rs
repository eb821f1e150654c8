use backend::entities::{ChatMessage, SimilarDocument};
use backend::prompt::{final_prompt, guardrail_prompt, is_safe_verdict, memory_context, rag_context};

fn doc(s: &str) -> SimilarDocument {
    SimilarDocument { content: s.to_string() }
}

fn chat(p: &str, a: &str) -> ChatMessage {
    ChatMessage { user_prompt: p.to_string(), ai_response: a.to_string() }
}

#[test]
fn rag_context_separates_passages_with_blank_lines() {
    assert_eq!(rag_context(&vec![]), "");
    assert_eq!(rag_context(&vec![doc("one")]), "one");
    assert_eq!(rag_context(&vec![doc("one"), doc("two"), doc("three")]), "one\n\ntwo\n\nthree");
}

#[test]
fn memory_context_without_history() {
    assert_eq!(memory_context(&vec![]), "No previous chat history.");
}

#[test]
fn memory_context_lists_oldest_first() {
    let chats = vec![chat("newest?", "n"), chat("oldest?", "o")];
    assert_eq!(
        memory_context(&chats),
        "Previous Chat History:\nUser: oldest?\nAI: o\n\nUser: newest?\nAI: n\n\n"
    );
}

#[test]
fn final_prompt_layout() {
    let p = final_prompt("CTX", "MEM", "Q?");
    assert_eq!(
        p,
        "You are an AI assistant for a software developer's portfolio. Use the provided Context and Previous Chat History to answer the user's question concisely.\n\nContext:\nCTX\n\nMEM\n\nUser Question: Q?"
    );
}

#[test]
fn guardrail_prompt_ends_with_input() {
    let p = guardrail_prompt("hi");
    assert!(p.starts_with("You are a security guard."));
    assert!(p.ends_with("\n\nInput: hi"));
}

#[test]
fn safe_verdict_must_read_exactly_safe() {
    assert!(is_safe_verdict("SAFE"));
    assert!(is_safe_verdict("  SAFE\n"));
    assert!(!is_safe_verdict("safe"));
    assert!(!is_safe_verdict("SAFE."));
    assert!(!is_safe_verdict("REJECT"));
    assert!(!is_safe_verdict(""));
}
