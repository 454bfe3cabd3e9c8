//! The structured command that a parser hands to the execution layer.

use vstd::prelude::*;

verus! {

/// One token of a command. New kinds of token may be added; code that is
/// only interested in words keeps working.
#[non_exhaustive]
#[derive(Clone, Debug, PartialEq, Eq)]
pub enum Arg {
    /// A plain argument string.
    Word(String),
}

/// The mathematical value of an [`Arg`].
pub ghost enum ArgView {
    Word(Seq<char>),
}

impl View for Arg {
    type V = ArgView;

    open spec fn view(&self) -> ArgView {
        match self {
            Arg::Word(text) => ArgView::Word(text@),
        }
    }
}

/// An ordered sequence of tokens, made for one line of input and consumed by
/// one run.
#[derive(Clone, Debug, PartialEq, Eq)]
pub struct Command {
    /// The tokens, in the order in which they were written.
    pub argv: Vec<Arg>,
}

impl View for Command {
    type V = Seq<ArgView>;

    open spec fn view(&self) -> Seq<ArgView> {
        self.argv@.map_values(|arg: Arg| arg@)
    }
}

/// The text of a token if it is a word.
pub open spec fn word_of(arg: ArgView) -> Option<Seq<char>> {
    match arg {
        ArgView::Word(text) => Some(text),
    }
}

/// The words among `args`, in their order. Tokens of any other kind are left
/// out.
pub open spec fn words_of(args: Seq<ArgView>) -> Seq<Seq<char>> {
    args.filter_map(|arg: ArgView| word_of(arg))
}

impl Command {
    /// A command of the given tokens.
    pub fn new(argv: Vec<Arg>) -> (cmd: Command)
        ensures
            cmd.argv == argv,
    {
        Command { argv }
    }

    /// The words of the command, in their order.
    pub fn words(&self) -> (out: Vec<String>)
        ensures
            out.deep_view() == words_of(self@),
    {
        let mut out: Vec<String> = Vec::new();
        let mut i: usize = 0;
        assert(self@.take(0) =~= Seq::<ArgView>::empty());
        while i < self.argv.len()
            invariant
                i <= self.argv.len(),
                out.deep_view() == words_of(self@.take(i as int)),
            decreases self.argv.len() - i,
        {
            let ghost before = out.deep_view();
            let ghost step = self@.take(i + 1);
            assert(step.drop_last() =~= self@.take(i as int));
            assert(step.last() == self.argv[i as int]@);
            match &self.argv[i] {
                Arg::Word(text) => {
                    out.push(text.clone());
                    assert(out.deep_view() =~= before + seq![text@]);
                },
            }
            i += 1;
        }
        assert(self@.take(i as int) =~= self@);
        out
    }
}

/// A command has no words exactly when none of its tokens is a word.
pub proof fn lemma_no_word_no_words(args: Seq<ArgView>)
    ensures
        words_of(args).len() == 0 <==> forall|i: int|
            0 <= i < args.len() ==> word_of(#[trigger] args[i]) is None,
    decreases args.len(),
{
    if args.len() > 0 {
        let front = args.drop_last();
        lemma_no_word_no_words(front);
        if words_of(args).len() == 0 {
            assert forall|i: int| 0 <= i < args.len() implies word_of(#[trigger] args[i]) is None by {
                if i < front.len() {
                    assert(front[i] == args[i]);
                }
            }
        } else if word_of(args.last()) is None {
            let i = choose|i: int| 0 <= i < front.len() && !(word_of(#[trigger] front[i]) is None);
            assert(front[i] == args[i]);
        }
    }
}

} // verus!
