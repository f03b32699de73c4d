use vstd::prelude::*;
use vstd::string::{StrSliceExecFns, StringExecFns};
use crate::errors::Error;
use crate::felt::push_char;

verus! {

/// The uniform output envelope: the one value that crosses from the
/// concurrent worker back to the blocking script caller.
///
/// Exactly one side is ever live: either `data` is present and `error` is
/// empty, or `data` is absent and `error` is a non-empty message.
#[derive(Debug)]
pub struct LuaOutput<T> {
    pub data: Option<T>,
    pub error: String,
}

impl<T> LuaOutput<T> {
    /// The envelope invariant: exactly one of payload and error is live.
    pub open spec fn wf(&self) -> bool {
        (self.data is Some && self.error@.len() == 0) || (self.data is None && self.error@.len()
            > 0)
    }

    /// Wraps a successful payload; the error side stays empty.
    pub fn ok(data: T) -> (r: Self)
        ensures
            r.wf(),
            r.data == Some(data),
            r.error@.len() == 0,
    {
        LuaOutput { data: Some(data), error: String::new() }
    }

    /// Wraps a failure; the payload side stays empty and the error text is
    /// the full rendered message, never empty.
    pub fn from_error(e: &Error) -> (r: Self)
        ensures
            r.wf(),
            r.data is None,
            r.error@ == e.label_spec() + e.detail_spec(),
    {
        LuaOutput { data: None, error: e.message() }
    }
}

/// Marshals an operation's result into the envelope that crosses the
/// concurrent/synchronous boundary.
pub fn envelope_from_result<T>(res: Result<T, Error>) -> (r: LuaOutput<T>)
    ensures
        r.wf(),
        match res {
            Ok(v) => r.data == Some(v) && r.error@.len() == 0,
            Err(e) => r.data is None && r.error@ == e.label_spec() + e.detail_spec(),
        },
{
    match res {
        Ok(v) => LuaOutput::ok(v),
        Err(e) => LuaOutput::from_error(&e),
    }
}

/// `elems`, joined with a comma and a space between neighbours.
pub open spec fn comma_joined(elems: Seq<Seq<char>>) -> Seq<char>
    decreases elems.len(),
{
    if elems.len() == 0 {
        Seq::<char>::empty()
    } else if elems.len() == 1 {
        elems[0]
    } else {
        comma_joined(elems.drop_last()) + ", "@ + elems.last()
    }
}

/// Renders a string array the way the host prints it: the elements joined
/// with ", ", between square brackets.
pub fn format_str_array(arr: &Vec<String>) -> (r: String)
    ensures
        r@ == seq!['['] + comma_joined(arr.deep_view()) + seq![']'],
{
    let ghost dv = arr.deep_view();
    let mut out = String::new();
    push_char(&mut out, '[');
    proof {
        assert(out@ =~= seq!['['] + comma_joined(dv.take(0)));
    }
    let n = arr.len();
    let mut i: usize = 0;
    while i < n
        invariant
            i <= n,
            n == arr@.len(),
            dv == arr.deep_view(),
            dv.len() == n,
            out@ == seq!['['] + comma_joined(dv.take(i as int)),
        decreases n - i,
    {
        if i > 0 {
            out.append(", ");
        }
        out.append(arr[i].as_str());
        proof {
            assert(dv[i as int] == arr@[i as int]@);
            if i == 0 {
                assert(dv.take(1)[0] == dv[0]);
                assert(comma_joined(dv.take(1)) == dv[0]);
                assert(comma_joined(dv.take(0)) == Seq::<char>::empty());
            } else {
                assert(dv.take(i as int + 1).drop_last() =~= dv.take(i as int));
                assert(dv.take(i as int + 1).last() == dv[i as int]);
                assert(comma_joined(dv.take(i as int + 1)) == comma_joined(dv.take(i as int))
                    + ", "@ + dv[i as int]);
            }
            assert(out@ =~= seq!['['] + comma_joined(dv.take(i as int + 1)));
        }
        i += 1;
    }
    proof {
        assert(dv.take(n as int) =~= dv);
    }
    push_char(&mut out, ']');
    proof {
        assert(out@ =~= seq!['['] + comma_joined(dv) + seq![']']);
    }
    out
}

} // verus!
