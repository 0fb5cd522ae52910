use shai::code_blocks::extract_code_blocks;

#[test]
fn code_blocks_regex() {
    let code_rust = "fn main() {
    println!(\"Hello, World!\");
}";
    let code_no_tag = "
Hello my friend";

    let code_python = "
print('Hello, World!')



        ";
    let text = format!(
        "
Some text before the code block
```rust
{code_rust}
```



```
{code_no_tag}
```
Some text after the code block
```python
{code_python}
```
    "
    );
    let blocks = extract_code_blocks(&text);
    assert_eq!(blocks.len(), 3);
    assert_eq!(blocks[0], code_rust);
    assert_eq!(blocks[1], code_no_tag);
    assert_eq!(blocks[2], code_python);
}

#[test]
fn two_blocks_tagged_and_untagged() {
    let blocks = extract_code_blocks("```rust\nA\n```\n```\nB\n```");
    assert_eq!(blocks, vec!["A".to_string(), "B".to_string()]);
}

#[test]
fn no_fence_gives_no_blocks() {
    assert!(extract_code_blocks("ls -la | grep foo").is_empty());
    assert!(extract_code_blocks("").is_empty());
    assert!(extract_code_blocks("use `ls` or ``x``").is_empty());
}

#[test]
fn unclosed_fence_gives_no_blocks() {
    assert!(extract_code_blocks("```sh\nls -la\n").is_empty());
}

#[test]
fn empty_body_block() {
    assert_eq!(extract_code_blocks("```\n\n```"), vec!["".to_string()]);
}

#[test]
fn fence_without_line_feed_after_tag_is_skipped() {
    assert!(extract_code_blocks("```rust code\nx\n```").is_empty());
}

#[test]
fn unicode_language_word() {
    assert_eq!(extract_code_blocks("```größe\nx\n```"), vec!["x".to_string()]);
}

#[test]
fn agrees_with_regular_expression() {
    let re = regex::Regex::new(r"(?s)```(?:\w+)?\n(.*?)\n```").unwrap();
    let samples = [
        "intro\n```bash\nls\n```\nmid\n```\ncat x\n```\nend",
        "````\nx\n```",
        "```a\n```\n```\nb\n```",
        "```\n```\n```\n",
        "x```py\nprint(1)\n```y```\nz\n```",
        "```日本\nコード\n```",
        "no blocks at all",
        "```\na\n``` ```\nb\n```",
    ];
    for s in samples {
        let expected: Vec<String> = re
            .captures_iter(s)
            .map(|c| c.get(1).unwrap().as_str().to_string())
            .collect();
        assert_eq!(extract_code_blocks(s), expected, "on {s:?}");
    }
}
