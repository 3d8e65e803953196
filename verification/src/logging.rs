//! Logging settings: the presets the library offers and the filter directives
//! a configuration asks for. Installing the subscriber is left to the program.

use vstd::prelude::*;

verus! {

/// The least severity a log event must have to be shown.
#[derive(Debug, Clone, Copy, PartialEq, Eq, Structural)]
pub enum LogLevel {
    /// Everything.
    Trace,
    /// Debugging detail and above.
    Debug,
    /// Informational events and above.
    Info,
    /// Warnings and errors.
    Warn,
    /// Errors only.
    Error,
}

/// How log events are filtered and formatted.
#[derive(Debug, Clone)]
pub struct LogConfig {
    /// The least severity shown.
    pub level: LogLevel,
    /// Whether events are written as JSON.
    pub json_format: bool,
    /// Whether events show their file and line.
    pub show_file_line: bool,
    /// Whether events show their thread's name and id.
    pub show_thread_info: bool,
    /// Whether events show their time.
    pub show_time: bool,
    /// Per-target filters, as `target=level` separated by commas.
    pub target_filters: Option<String>,
}

/// `s` cut at every `sep`: the pieces between separators, in order (one empty
/// piece for an empty `s`).
pub open spec fn split_on(s: Seq<char>, sep: char) -> Seq<Seq<char>>
    decreases s.len(),
{
    if s.len() == 0 {
        seq![Seq::<char>::empty()]
    } else {
        let init = split_on(s.drop_last(), sep);
        if s.last() == sep {
            init.push(Seq::empty())
        } else {
            init.update(init.len() - 1, init.last().push(s.last()))
        }
    }
}

/// `split_on` always gives at least one piece.
proof fn lemma_split_nonempty(s: Seq<char>, sep: char)
    ensures
        split_on(s, sep).len() >= 1,
    decreases s.len(),
{
    if s.len() > 0 {
        lemma_split_nonempty(s.drop_last(), sep);
    }
}

impl Default for LogConfig {
    /// Informational events and above, as plain text with file, line, thread and time.
    fn default() -> (c: Self)
        ensures
            c.level == LogLevel::Info,
            !c.json_format,
            c.show_file_line,
            c.show_thread_info,
            c.show_time,
            c.target_filters is None,
    {
        LogConfig {
            level: LogLevel::Info,
            json_format: false,
            show_file_line: true,
            show_thread_info: true,
            show_time: true,
            target_filters: None,
        }
    }
}

impl LogConfig {
    /// Settings for development: debugging detail, tracing of the thread
    /// runtime, plain text with file, line, thread and time.
    pub fn development() -> (c: Self)
        ensures
            c.level == LogLevel::Debug,
            !c.json_format,
            c.show_file_line,
            c.show_thread_info,
            c.show_time,
            c.target_filters matches Some(f) && f@ == "parrot=debug,parrot::thread=trace"@,
    {
        LogConfig {
            level: LogLevel::Debug,
            json_format: false,
            show_file_line: true,
            show_thread_info: true,
            show_time: true,
            target_filters: Some(String::from_str("parrot=debug,parrot::thread=trace")),
        }
    }

    /// Settings for production: informational events as JSON, with thread and
    /// time but without file and line.
    pub fn production() -> (c: Self)
        ensures
            c.level == LogLevel::Info,
            c.json_format,
            !c.show_file_line,
            c.show_thread_info,
            c.show_time,
            c.target_filters is None,
    {
        LogConfig {
            level: LogLevel::Info,
            json_format: true,
            show_file_line: false,
            show_thread_info: true,
            show_time: true,
            target_filters: None,
        }
    }

    /// Settings for tests: warnings and errors as plain text with file and
    /// line, without thread or time.
    pub fn test() -> (c: Self)
        ensures
            c.level == LogLevel::Warn,
            !c.json_format,
            c.show_file_line,
            !c.show_thread_info,
            !c.show_time,
            c.target_filters is None,
    {
        LogConfig {
            level: LogLevel::Warn,
            json_format: false,
            show_file_line: true,
            show_thread_info: false,
            show_time: false,
            target_filters: None,
        }
    }

    /// The per-target filter directives: the pieces of `target_filters`
    /// between commas, in order; none without filters.
    pub fn filter_directives(&self) -> (r: Vec<String>)
        ensures
            match self.target_filters {
                Some(f) => r@.map_values(|d: String| d@) == split_on(f@, ','),
                None => r@.len() == 0,
            },
    {
        match &self.target_filters {
            None => Vec::new(),
            Some(f) => split_commas(f.as_str()),
        }
    }
}

/// The pieces of `s` between commas, in order.
fn split_commas(s: &str) -> (r: Vec<String>)
    ensures
        r@.map_values(|d: String| d@) == split_on(s@, ','),
{
    let n = s.unicode_len();
    let mut done: Vec<String> = Vec::new();
    let mut current = String::new();
    let mut i: usize = 0;
    proof {
        assert(s@.take(0) =~= Seq::<char>::empty());
        assert(done@.map_values(|d: String| d@).push(current@) =~= split_on(s@.take(0), ','));
    }
    while i < n
        invariant
            n == s@.len(),
            i <= n,
            done@.map_values(|d: String| d@).push(current@) == split_on(s@.take(i as int), ','),
        decreases n - i,
    {
        let c = s.get_char(i);
        let ghost before = split_on(s@.take(i as int), ',');
        proof {
            assert(s@.take(i + 1).drop_last() =~= s@.take(i as int));
            assert(s@.take(i + 1).last() == c);
            lemma_split_nonempty(s@.take(i as int), ',');
        }
        if c == ',' {
            let piece = current;
            done.push(piece);
            current = String::new();
            proof {
                assert(done@.map_values(|d: String| d@) =~= before);
                assert(done@.map_values(|d: String| d@).push(current@) =~= split_on(s@.take(i + 1), ','));
            }
        } else {
            let one = s.substring_char(i, i + 1);
            let ghost old_current = current@;
            proof {
                assert(one@ =~= seq![c]);
            }
            current.append(one);
            proof {
                assert(current@ =~= old_current.push(c));
                assert(done@.map_values(|d: String| d@).push(current@) =~= before.update(before.len() - 1, before.last().push(c)));
            }
        }
        i = i + 1;
    }
    done.push(current);
    proof {
        assert(s@.take(n as int) =~= s@);
    }
    done
}

} // verus!
