use norx_passwd::output::{after_write, marker, write_all, Progress};

/// An output that takes at most as many bytes of each chunk as the next limit
/// says; a limit of `None` is a failure.
struct Output {
    limits: Vec<Option<usize>>,
    offered: Vec<Vec<u8>>,
    accepted: Vec<u8>,
}

impl Output {
    fn new(limits: &[Option<usize>]) -> Output {
        Output { limits: limits.to_vec(), offered: Vec::new(), accepted: Vec::new() }
    }
}

fn write(mut output: Output, chunk: &[u8]) -> (Output, Option<usize>) {
    let limit = output.limits[output.offered.len()];
    output.offered.push(chunk.to_vec());
    let reply = limit.map(|limit| limit.min(chunk.len()));
    output.accepted.extend_from_slice(&chunk[..reply.unwrap_or(0)]);
    (output, reply)
}

fn check(message: &[u8], limits: &[Option<usize>], done: bool, offered: &[&[u8]], accepted: &[u8]) {
    let (output, result) = write_all(message, Output::new(limits), &write);
    assert_eq!(result, done);
    assert_eq!(output.offered, offered);
    assert_eq!(output.accepted, accepted);
    let (output, result) = marker(message, Output::new(limits), &write);
    assert_eq!(result, done);
    assert_eq!(output.offered, offered);
    assert_eq!(output.accepted, accepted);
}

#[test]
fn a_message_goes_out_in_pieces() {
    check(b"abc", &[Some(1), Some(2)], true, &[b"abc", b"bc"], b"abc");
    check(b"hello", &[Some(2), Some(1), Some(9)], true, &[b"hello", b"llo", b"lo"], b"hello");
    check(b"hello", &[Some(5)], true, &[b"hello"], b"hello");
}

#[test]
fn a_message_takes_at_most_a_write_for_each_byte() {
    check(b"abc", &[Some(1); 3], true, &[b"abc", b"bc", b"c"], b"abc");
}

#[test]
fn an_empty_message_needs_no_write() {
    check(b"", &[], true, &[], b"");
}

#[test]
fn a_failure_ends_the_message() {
    check(b"hello", &[Some(2), None], false, &[b"hello", b"llo"], b"he");
    check(b"hello", &[None], false, &[b"hello"], b"");
    check(
        b"PASSWD:CHANGE_OK\n",
        &[Some(10), None],
        false,
        &[b"PASSWD:CHANGE_OK\n", b"NGE_OK\n"],
        b"PASSWD:CHA",
    );
}

#[test]
fn an_output_that_takes_nothing_ends_the_message() {
    check(b"abc", &[Some(2), Some(0)], false, &[b"abc", b"c"], b"ab");
}

#[test]
fn an_output_that_claims_too_much_is_believed() {
    let (calls, done) =
        write_all(b"hello", 0, &|calls: i32, _: &[u8]| (calls + 1, Some(usize::MAX)));
    assert!(done);
    assert_eq!(calls, 1);
}

#[test]
fn a_marker_is_written_whole() {
    check(b"PASSWD:CHANGE_OK\n", &[Some(64)], true, &[b"PASSWD:CHANGE_OK\n"], b"PASSWD:CHANGE_OK\n");
}

#[test]
fn progress_after_one_write() {
    assert_eq!(after_write(5, 2, Some(2)), Progress::Partial { written: 4 });
    assert_eq!(after_write(5, 2, Some(3)), Progress::Complete);
    assert_eq!(after_write(5, 2, Some(4)), Progress::Complete);
    assert_eq!(after_write(5, 2, Some(0)), Progress::Stalled);
    assert_eq!(after_write(5, 2, None), Progress::Stalled);
}
