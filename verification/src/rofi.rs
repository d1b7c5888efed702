//! The interactive menu invocation: its choices, message and theme.

use vstd::prelude::*;

pub use crate::cli::focal::RofiArgs;

verus! {

/// The choices joined with the menu's separator.
pub open spec fn join_pipe(cs: Seq<Seq<char>>) -> Seq<char>
    decreases cs.len(),
{
    if cs.len() == 0 {
        Seq::empty()
    } else if cs.len() == 1 {
        cs[0]
    } else {
        join_pipe(cs.drop_last()) + "|"@ + cs.last()
    }
}

/// One menu invocation: the choices offered, extra arguments, an optional
/// message line, and a theme file.
#[derive(Debug)]
pub struct Rofi {
    pub choices: Vec<String>,
    pub extra_args: Vec<String>,
    pub message: String,
    pub theme: String,
}

impl Rofi {
    /// A menu over the given choices, with no message and no theme.
    pub fn new(choices: &Vec<String>) -> (r: Self)
        ensures
            r.choices@ == choices@,
            r.extra_args@ == Seq::<String>::empty(),
            r.message@ == Seq::<char>::empty(),
            r.theme@ == Seq::<char>::empty(),
    {
        let mut cs: Vec<String> = Vec::new();
        let mut i: usize = 0;
        while i < choices.len()
            invariant
                0 <= i <= choices@.len(),
                cs@ =~= choices@.take(i as int),
            decreases choices@.len() - i,
        {
            cs.push(choices[i].clone());
            i = i + 1;
        }
        proof {
            assert(choices@.take(choices@.len() as int) =~= choices@);
        }
        Rofi { choices: cs, extra_args: Vec::new(), message: String::new(), theme: String::new() }
    }

    /// Adds one extra argument to the menu invocation.
    pub fn arg(self, arg: &str) -> (r: Self)
        ensures
            r.choices == self.choices,
            r.message == self.message,
            r.theme == self.theme,
            r.extra_args.deep_view() == self.extra_args.deep_view() + seq![arg@],
    {
        let mut extra_args = self.extra_args;
        let ghost before = extra_args.deep_view();
        extra_args.push(String::from_str(arg));
        proof {
            assert(extra_args.deep_view() =~~= before + seq![arg@]);
        }
        Rofi { extra_args, ..self }
    }

    /// Sets the theme file.
    pub fn theme(self, theme: String) -> (r: Self)
        ensures
            r.choices == self.choices,
            r.extra_args == self.extra_args,
            r.message == self.message,
            r.theme == theme,
    {
        Rofi { theme, ..self }
    }

    /// Sets the message line.
    pub fn message(self, message: &str) -> (r: Self)
        ensures
            r.choices == self.choices,
            r.extra_args == self.extra_args,
            r.theme == self.theme,
            r.message@ == message@,
    {
        Rofi { message: String::from_str(message), ..self }
    }

    /// The text handed to the menu on its standard input: the choices,
    /// separated by the menu's separator.
    pub fn input(&self) -> (r: String)
        ensures
            r@ == join_pipe(self.choices.deep_view()),
    {
        let mut r = String::new();
        let mut i: usize = 0;
        while i < self.choices.len()
            invariant
                0 <= i <= self.choices@.len(),
                r@ == join_pipe(self.choices.deep_view().take(i as int)),
            decreases self.choices@.len() - i,
        {
            if i > 0 {
                r.append("|");
            }
            r.append(self.choices[i].as_str());
            proof {
                let cs = self.choices.deep_view();
                assert(cs.take(i + 1 as int).drop_last() =~= cs.take(i as int));
                assert(cs.take(i + 1 as int).last() == cs[i as int]);
                reveal_strlit("|");
                assert(r@ =~= join_pipe(cs.take(i + 1 as int)));
            }
            i = i + 1;
        }
        proof {
            assert(self.choices.deep_view().take(self.choices.deep_view().len() as int)
                =~= self.choices.deep_view());
        }
        r
    }
}

} // verus!
