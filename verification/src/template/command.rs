use vstd::prelude::*;

verus! {

/// The pieces of `list` one after the other, with `sep` between each two.
pub open spec fn join_with(list: Seq<Seq<char>>, sep: Seq<char>) -> Seq<char>
    decreases list.len(),
{
    if list.len() == 0 {
        seq![]
    } else if list.len() == 1 {
        list[0]
    } else {
        join_with(list.subrange(0, list.len() - 1), sep) + sep + list[list.len() - 1]
    }
}

/// A program that a template runs, with its arguments.
#[derive(Debug)]
pub struct Command {
    pub program: String,
    pub args: Vec<String>,
}

impl Command {
    /// How the command is shown: the program, a space, then the arguments
    /// joined by single spaces.
    pub open spec fn shown(&self) -> Seq<char> {
        self.program@ + seq![' '] + join_with(self.args.deep_view(), seq![' '])
    }

    /// The command as text (see `shown`).
    pub fn to_string(&self) -> (r: String)
        ensures
            r@ == self.shown(),
    {
        proof {
            reveal_strlit(" ");
        }
        let mut r = self.program.clone();
        r.append(" ");
        let mut i: usize = 0;
        let ghost start = r@;
        while i < self.args.len()
            invariant
                i <= self.args.len(),
                start == self.program@ + seq![' '],
                " "@ == seq![' '],
                r@ == start + join_with(self.args.deep_view().subrange(0, i as int), seq![' ']),
            decreases self.args.len() - i,
        {
            let ghost prev = r@;
            if i > 0 {
                r.append(" ");
            }
            r.append(self.args[i].as_str());
            proof {
                let list = self.args.deep_view().subrange(0, i + 1);
                assert(list.subrange(0, list.len() - 1) =~= self.args.deep_view().subrange(0, i as int));
                if i == 0 {
                    assert(join_with(self.args.deep_view().subrange(0, 0), seq![' ']) =~= Seq::<char>::empty());
                    assert(r@ =~= start + join_with(list, seq![' ']));
                } else {
                    assert(r@ =~= start + join_with(list, seq![' ']));
                }
            }
            i = i + 1;
        }
        assert(self.args.deep_view().subrange(0, i as int) =~= self.args.deep_view());
        r
    }
}

} // verus!
