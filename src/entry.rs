use vstd::prelude::*;

verus! {

/// The tag used when the operator gives none.
pub const DEFAULT_TAG: &'static str = "HostLogInjector";

/// One unit of work to inject: a log tag and a message, both kept verbatim.
#[derive(Debug)]
pub struct LogCatEntry {
    log_tag: String,
    log_msg: String,
}

impl LogCatEntry {
    /// The tag this entry carries.
    pub closed spec fn tag(&self) -> Seq<char> {
        self.log_tag@
    }

    /// The message this entry carries.
    pub closed spec fn msg(&self) -> Seq<char> {
        self.log_msg@
    }

    /// Builds an entry; neither field is validated or altered.
    pub fn new(tag: &str, msg: &str) -> (r: LogCatEntry)
        ensures
            r.tag() == tag@,
            r.msg() == msg@,
    {
        LogCatEntry { log_tag: tag.to_owned(), log_msg: msg.to_owned() }
    }

    pub fn get_log_tag(&self) -> (r: &String)
        ensures
            r@ == self.tag(),
    {
        &self.log_tag
    }

    pub fn get_log_msg(&self) -> (r: &String)
        ensures
            r@ == self.msg(),
    {
        &self.log_msg
    }
}

} // verus!
