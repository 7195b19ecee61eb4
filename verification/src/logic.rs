use vstd::prelude::*;

verus! {

/// The answer to a request.
#[derive(Debug, Clone, PartialEq, Eq)]
pub struct Response<R> {
    pub result: R,
}

/// The request to reverse a text.
#[derive(Debug, Clone, PartialEq, Eq)]
pub struct ReverseRequest {
    pub value: String,
}

/// The request to combine two numbers.
#[derive(Debug, Clone, Copy, PartialEq, Eq)]
pub struct CalcRequest {
    pub x: i32,
    pub y: i32,
}

/// `String::push` of the standard library: appends `c` to the end of
/// `text` and leaves what stood there as it was.
#[verifier::external_body]
fn push_char(text: &mut String, c: char)
    ensures
        final(text)@ == old(text)@.push(c),
{
    text.push(c)
}

/// Reverses the text of the request, character by character.
pub fn reverse(req: ReverseRequest) -> (response: Response<String>)
    ensures
        response.result@ == req.value@.reverse(),
{
    let mut chars: Vec<char> = Vec::new();
    for c in it: req.value.as_str().chars()
        invariant
            it.seq() == req.value@,
            chars@ == it.seq().take(it.index() as int),
    {
        chars.push(c);
    }
    let mut result = String::new();
    let mut left: usize = chars.len();
    while left > 0
        invariant
            left <= chars.len(),
            chars@ == req.value@,
            result@ == chars@.reverse().take(chars.len() - left),
        decreases left,
    {
        left -= 1;
        push_char(&mut result, chars[left]);
    }
    Response { result }
}

/// Adds the two numbers of the request.
pub fn add(req: CalcRequest) -> (response: Response<i32>)
    requires
        i32::MIN <= req.x + req.y <= i32::MAX,
    ensures
        response.result == req.x + req.y,
{
    Response { result: req.x + req.y }
}

/// Subtracts the second number of the request from the first.
pub fn sub(req: CalcRequest) -> (response: Response<i32>)
    requires
        i32::MIN <= req.x - req.y <= i32::MAX,
    ensures
        response.result == req.x - req.y,
{
    Response { result: req.x - req.y }
}

} // verus!
