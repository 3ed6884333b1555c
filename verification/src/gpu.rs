//! How busy the graphics card is, and what `nvidia-smi` says of it.
use vstd::prelude::*;
use crate::command;
use crate::command::CommandOutput;
use crate::data::Data;
use crate::text;

verus! {

/// The first number that stands alone in any of `contents`.
pub open spec fn first_number(contents: Seq<String>) -> Option<u64>
    decreases contents.len(),
{
    if contents.len() == 0 {
        None
    } else {
        match text::number_in(text::trimmed(contents.first()@)) {
            Some(number) => Some(number),
            None => first_number(contents.drop_first()),
        }
    }
}

/// The two fields of a report: what comes before and after its first comma and space.
pub open spec fn report_fields(report: Seq<char>) -> Option<(Seq<char>, Seq<char>)> {
    match text::split_at_first(text::trimmed(report), ", "@) {
        Some((temperature, load)) => Some((text::trimmed(temperature), text::trimmed(load))),
        None => None,
    }
}

/// The arguments of `nvidia-smi` that ask for the temperature and the load.
pub open spec fn nvidia_smi_arguments() -> Seq<Seq<char>> {
    seq![
        "--query-gpu=temperature.gpu,utilization.gpu"@,
        "--format=csv,noheader,nounits"@,
    ]
}

/// `reading` is what a report says, where `parse` reads the temperature.
pub open spec fn reported<T, F: Fn(&str) -> Option<T>>(
    parse: F,
    report: Seq<char>,
    reading: (Option<T>, Option<u64>),
) -> bool {
    match report_fields(report) {
        Some((temperature, load)) => {
            &&& exists|field: &str| field@ == temperature && call_ensures(parse, (field,), reading.0)
            &&& reading.1 == text::number_in(load)
        },
        None => reading == (None::<T>, None::<u64>),
    }
}

/// Reads a report of `nvidia-smi`.
pub fn read_report<T, F: Fn(&str) -> Option<T>>(report: &str, parse: &F) -> (reading: (
    Option<T>,
    Option<u64>,
))
    requires
        forall|field: &str| call_requires(*parse, (field,)),
    ensures
        reported(*parse, report@, reading),
{
    match text::split_once(text::trim(report), ", ") {
        Some((temperature, load)) => {
            let field = text::trim(temperature);
            let degrees = parse(field);
            assert(call_ensures(*parse, (field,), degrees));
            (degrees, text::parse_u64(text::trim(load)))
        },
        None => (None, None),
    }
}

impl<T: Copy> Data<T> {
    /// How busy the graphics card is, by what the kernel's files say.
    pub fn find_gpu_usage_sysfs(contents: &Vec<String>) -> (usage: Option<u64>)
        ensures
            usage == first_number(contents@),
    {
        assert(contents@.skip(0) == contents@);
        let mut i: usize = 0;
        while i < contents.len()
            invariant
                i <= contents.len(),
                first_number(contents@) == first_number(contents@.skip(i as int)),
            decreases contents.len() - i,
        {
            assert(contents@.skip(i as int).first() == contents[i as int]);
            let number = text::parse_u64(text::trim(contents[i].as_str()));
            if number.is_some() {
                return number;
            }
            assert(contents@.skip(i as int).drop_first() == contents@.skip(i + 1));
            i = i + 1;
        }
        None
    }

    /// The arguments to run `nvidia-smi` with.
    pub fn nvidia_arguments() -> (arguments: Vec<&'static str>)
        ensures
            arguments@.map_values(|a: &'static str| a@) == nvidia_smi_arguments(),
    {
        let arguments = vec![
            "--query-gpu=temperature.gpu,utilization.gpu",
            "--format=csv,noheader,nounits",
        ];
        assert(arguments@.map_values(|a: &'static str| a@) =~= nvidia_smi_arguments());
        arguments
    }

    /// The temperature and the load of the graphics card, by the output of `nvidia-smi`.
    pub fn query_nvidia_smi<F: Fn(&str) -> Option<T>>(
        output: &Option<CommandOutput>,
        parse: &F,
    ) -> (reading: Option<(Option<T>, Option<u64>)>)
        requires
            forall|field: &str| call_requires(*parse, (field,)),
        ensures
            match command::written(*output) {
                Some(bytes) => match reading {
                    Some(pair) => reported(*parse, text::utf8_lossy(bytes), pair),
                    None => false,
                },
                None => reading is None,
            },
    {
        match output {
            Some(done) => {
                if !done.success {
                    return None;
                }
                let report = text::from_utf8_lossy(done.stdout.as_slice());
                Some(read_report(report.as_str(), parse))
            },
            None => None,
        }
    }
}

} // verus!
