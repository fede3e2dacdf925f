//! Model of the environment file: an ordered sequence of text lines that is
//! first created empty (truncating whatever was there) and then written
//! additively, one line at a time. Appending is only possible once the file
//! has been created in the same run.
use vstd::prelude::*;

use crate::text::push_char;

verus! {

/// Why an environment-file operation was refused.
#[derive(Clone, Copy, PartialEq, Eq, Structural, Debug)]
pub enum EnvError {
    /// The file has not been created yet, so there is nothing to append to.
    NotCreated,
}

/// The environment file: whether it has been created in this run, and the
/// lines written so far, in order. Duplicate keys are legal; nothing here
/// enforces uniqueness.
pub struct EnvFile {
    created: bool,
    lines: Vec<String>,
}

/// The state every call of [`EnvFile::create`] leaves behind: the file
/// exists and holds no lines, whatever was there before.
pub open spec fn create_result(e: EnvFile) -> bool {
    e.is_created() && e.lines() == Seq::<Seq<char>>::empty()
}

/// The content of a line sequence as one character sequence: each line
/// followed by a newline.
pub open spec fn render_lines(ls: Seq<Seq<char>>) -> Seq<char>
    decreases ls.len(),
{
    if ls.len() == 0 {
        Seq::<char>::empty()
    } else {
        ls[0].push('\n') + render_lines(ls.drop_first())
    }
}

/// Rendering distributes over appending one line at the end.
pub proof fn lemma_render_lines_push(ls: Seq<Seq<char>>, l: Seq<char>)
    ensures
        render_lines(ls.push(l)) == render_lines(ls) + l.push('\n'),
    decreases ls.len(),
{
    if ls.len() == 0 {
        assert(ls.push(l)[0] == l);
        assert(ls.push(l).drop_first() =~= Seq::<Seq<char>>::empty());
        assert(render_lines(Seq::<Seq<char>>::empty()) == Seq::<char>::empty());
        assert(render_lines(ls) == Seq::<char>::empty());
        assert(render_lines(ls.push(l)) =~= render_lines(ls) + l.push('\n'));
    } else {
        assert(ls.push(l)[0] == ls[0]);
        assert(ls.push(l).drop_first() =~= ls.drop_first().push(l));
        lemma_render_lines_push(ls.drop_first(), l);
        assert(render_lines(ls.push(l)) =~= render_lines(ls) + l.push('\n'));
    }
}

impl EnvFile {
    /// Whether the file has been created in this run.
    pub closed spec fn is_created(self) -> bool {
        self.created
    }

    /// The lines written so far, in order.
    pub closed spec fn lines(self) -> Seq<Seq<char>> {
        Seq::new(self.lines@.len(), |i: int| self.lines@[i]@)
    }

    /// A fresh handle on a file that has not been created yet.
    pub fn new() -> (r: EnvFile)
        ensures
            !r.is_created(),
            r.lines() == Seq::<Seq<char>>::empty(),
    {
        let r = EnvFile { created: false, lines: Vec::new() };
        proof {
            assert(r.lines() =~= Seq::<Seq<char>>::empty());
        }
        r
    }

    /// Creates the file, truncating it to empty: afterwards it exists and
    /// holds no lines, whatever state it was in before.
    pub fn create(&mut self)
        ensures
            create_result(*final(self)),
    {
        self.created = true;
        self.lines = Vec::new();
        proof {
            assert(self.lines() =~= Seq::<Seq<char>>::empty());
        }
    }

    /// Appends one line at the end. This succeeds exactly when the file has
    /// been created; before creation it fails and changes nothing.
    pub fn append(&mut self, line: String) -> (r: Result<(), EnvError>)
        ensures
            r is Ok <==> old(self).is_created(),
            r is Ok ==> final(self).is_created() && final(self).lines() == old(self).lines().push(
                line@,
            ),
            r is Err ==> *final(self) == *old(self) && r == Result::<(), EnvError>::Err(
                EnvError::NotCreated,
            ),
    {
        if !self.created {
            return Err(EnvError::NotCreated);
        }
        self.lines.push(line);
        proof {
            assert(self.lines() =~= old(self).lines().push(line@));
        }
        Ok(())
    }

    /// Whether the file has been created, as an executable query.
    pub fn created(&self) -> (r: bool)
        ensures
            r == self.is_created(),
    {
        self.created
    }

    /// How many lines the file holds.
    pub fn line_count(&self) -> (r: usize)
        ensures
            r == self.lines().len(),
    {
        self.lines.len()
    }

    /// The whole file content: each line followed by a newline, in order.
    pub fn render(&self) -> (r: String)
        ensures
            r@ == render_lines(self.lines()),
    {
        let mut out = String::new();
        let ghost all = self.lines();
        let mut i: usize = 0;
        while i < self.lines.len()
            invariant
                0 <= i <= self.lines.len(),
                all == self.lines(),
                all.len() == self.lines.len(),
                out@ == render_lines(all.subrange(0, i as int)),
            decreases self.lines.len() - i,
        {
            out.append(self.lines[i].as_str());
            push_char(&mut out, '\n');
            proof {
                assert(all.subrange(0, i + 1 as int) =~= all.subrange(0, i as int).push(all[i as int]));
                lemma_render_lines_push(all.subrange(0, i as int), all[i as int]);
            }
            i = i + 1;
        }
        proof {
            assert(all.subrange(0, all.len() as int) =~= all);
        }
        out
    }
}

/// The text the lines stand for when the newline separates them: no newline
/// after the last line.
pub open spec fn join_lines(ls: Seq<Seq<char>>) -> Seq<char>
    decreases ls.len(),
{
    if ls.len() == 0 {
        Seq::<char>::empty()
    } else if ls.len() == 1 {
        ls[0]
    } else {
        ls[0].push('\n') + join_lines(ls.drop_first())
    }
}

/// Joining lines with a last one appended renders the earlier ones and ends
/// with the last, bare.
pub proof fn lemma_join_lines_push(ls: Seq<Seq<char>>, l: Seq<char>)
    ensures
        join_lines(ls.push(l)) == render_lines(ls) + l,
    decreases ls.len(),
{
    if ls.len() == 0 {
        assert(ls.push(l)[0] == l);
        assert(join_lines(ls.push(l)) =~= render_lines(ls) + l);
    } else {
        assert(ls.push(l)[0] == ls[0]);
        assert(ls.push(l).drop_first() =~= ls.drop_first().push(l));
        lemma_join_lines_push(ls.drop_first(), l);
        assert(join_lines(ls.push(l)) =~= render_lines(ls) + l);
    }
}

/// Cuts a text at each newline. The returned lines are newline-free and,
/// joined by newlines, give the text back; that determines them uniquely.
/// A trailing newline thus yields a final empty line, and an empty text one
/// empty line.
pub fn split_lines(content: &str) -> (r: Vec<String>)
    ensures
        r@.len() >= 1,
        join_lines(Seq::new(r@.len(), |i: int| r@[i]@)) == content@,
        forall|i: int, j: int|
            0 <= i < r@.len() && 0 <= j < r@[i]@.len() ==> #[trigger] r@[i]@[j] != '\n',
{
    let n = content.unicode_len();
    let mut done: Vec<String> = Vec::new();
    let mut cur: String = String::new();
    let mut i: usize = 0;
    while i < n
        invariant
            0 <= i <= n,
            n == content@.len(),
            render_lines(Seq::new(done@.len(), |k: int| done@[k]@)) + cur@ == content@.subrange(
                0,
                i as int,
            ),
            forall|k: int, j: int|
                0 <= k < done@.len() && 0 <= j < done@[k]@.len() ==> #[trigger] done@[k]@[j]
                    != '\n',
            forall|j: int| 0 <= j < cur@.len() ==> cur@[j] != '\n',
        decreases n - i,
    {
        let ghost done_pre = Seq::new(done@.len(), |k: int| done@[k]@);
        let ghost cur_pre = cur@;
        let c = content.get_char(i);
        proof {
            assert(content@.subrange(0, i + 1 as int) =~= content@.subrange(0, i as int).push(
                content@[i as int],
            ));
        }
        if c == '\n' {
            done.push(cur);
            cur = String::new();
            proof {
                assert(Seq::new(done@.len(), |k: int| done@[k]@) =~= done_pre.push(cur_pre));
                lemma_render_lines_push(done_pre, cur_pre);
                assert(render_lines(Seq::new(done@.len(), |k: int| done@[k]@)) + cur@
                    =~= content@.subrange(0, i + 1 as int));
            }
        } else {
            push_char(&mut cur, c);
            proof {
                assert(cur@ == cur_pre.push(c));
                assert(render_lines(Seq::new(done@.len(), |k: int| done@[k]@)) + cur@
                    =~= content@.subrange(0, i + 1 as int));
            }
        }
        i = i + 1;
    }
    let ghost done_view = Seq::new(done@.len(), |k: int| done@[k]@);
    let ghost last = cur@;
    done.push(cur);
    proof {
        assert(content@.subrange(0, n as int) =~= content@);
        assert(Seq::new(done@.len(), |k: int| done@[k]@) =~= done_view.push(last));
        lemma_join_lines_push(done_view, last);
    }
    done
}

/// Splits a `KEY=VALUE` line at its first equals sign: the key is the
/// equals-free prefix and the value is everything after that sign, verbatim.
/// A line without an equals sign yields nothing.
pub fn split_env_line(line: &str) -> (r: Option<(String, String)>)
    ensures
        r matches Some(kv) ==> kv.0@ + seq!['='] + kv.1@ == line@ && forall|i: int|
            0 <= i < kv.0@.len() ==> kv.0@[i] != '=',
        r is None ==> forall|i: int| 0 <= i < line@.len() ==> line@[i] != '=',
{
    let n = line.unicode_len();
    let mut j: usize = 0;
    while j < n
        invariant
            0 <= j <= n,
            n == line@.len(),
            forall|i: int| 0 <= i < j ==> line@[i] != '=',
        decreases n - j,
    {
        if line.get_char(j) == '=' {
            let key = line.substring_char(0, j).to_owned();
            let value = line.substring_char(j + 1, n).to_owned();
            proof {
                assert(key@ + seq!['='] + value@ =~= line@);
            }
            return Some((key, value));
        }
        j = j + 1;
    }
    None
}

/// Creating the environment file is idempotent at the truncate-to-empty
/// level: after each of two consecutive creations the file exists and is
/// empty, whatever state preceded them.
pub proof fn lemma_create_idempotent(first: EnvFile, second: EnvFile)
    requires
        create_result(first),
        create_result(second),
    ensures
        first.is_created() && first.lines().len() == 0,
        second.is_created() && second.lines().len() == 0,
{
}

} // verus!
