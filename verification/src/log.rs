//! Log levels and the bookkeeping of the installed logger.
//!
//! The synthesizer reports each message with an integer level and hands it
//! to the handler that is registered for that level.  Registering and
//! unregistering a handler is done outside this crate; what is decided here is
//! which registrations are due when a logger is set, replaced or removed, and
//! what a logger receives for a reported message.
use vstd::prelude::*;

verus! {

/// Logging level
#[derive(Debug, Clone, Copy, PartialEq, Eq, Hash)]
pub enum LogLevel {
    /// The synth can't function correctly any more
    Panic,
    /// Serious error occurred
    Error,
    /// Warning
    Warning,
    /// Verbose informational messages
    Info,
    /// Debugging messages
    Debug,
}

/// The severity under which a message is passed on to a general logging
/// facade.
#[derive(Debug, Clone, Copy, PartialEq, Eq, Hash)]
pub enum Level {
    Error,
    Warn,
    Info,
    Debug,
    Trace,
}

impl LogLevel {
    /// All log levels
    pub const DEBUG: [LogLevel; 5] = [
        LogLevel::Panic,
        LogLevel::Error,
        LogLevel::Warning,
        LogLevel::Info,
        LogLevel::Debug,
    ];

    /// All log levels excluding debug
    pub const INFO: [LogLevel; 4] = [
        LogLevel::Panic,
        LogLevel::Error,
        LogLevel::Warning,
        LogLevel::Info,
    ];

    /// Warning, error and panic log levels
    pub const WARNING: [LogLevel; 3] = [LogLevel::Panic, LogLevel::Error, LogLevel::Warning];

    /// Error and panic log levels only
    pub const ERROR: [LogLevel; 2] = [LogLevel::Panic, LogLevel::Error];

    /// Panic log level only
    pub const PANIC: [LogLevel; 1] = [LogLevel::Panic];

    /// The integer under which the synthesizer reports this level.
    pub open spec fn code(self) -> int {
        match self {
            LogLevel::Panic => 0,
            LogLevel::Error => 1,
            LogLevel::Warning => 2,
            LogLevel::Info => 3,
            LogLevel::Debug => 4,
        }
    }

    /// The level that the synthesizer reports as `level`, if there is one.
    pub open spec fn decode(level: int) -> Option<LogLevel> {
        if level == 0 {
            Some(LogLevel::Panic)
        } else if level == 1 {
            Some(LogLevel::Error)
        } else if level == 2 {
            Some(LogLevel::Warning)
        } else if level == 3 {
            Some(LogLevel::Info)
        } else if level == 4 {
            Some(LogLevel::Debug)
        } else {
            None
        }
    }

    /// The upper-case name of the level.
    pub open spec fn name(self) -> Seq<char> {
        match self {
            LogLevel::Panic => "PANIC"@,
            LogLevel::Error => "ERROR"@,
            LogLevel::Warning => "WARNING"@,
            LogLevel::Info => "INFO"@,
            LogLevel::Debug => "DEBUG"@,
        }
    }

    /// The severity that stands for this level in a logging facade.
    pub open spec fn facade(self) -> Level {
        match self {
            LogLevel::Panic => Level::Error,
            LogLevel::Error => Level::Error,
            LogLevel::Warning => Level::Warn,
            LogLevel::Info => Level::Info,
            LogLevel::Debug => Level::Debug,
        }
    }

    /// Decodes a level as the synthesizer reports it.
    pub fn from_ffi(level: i32) -> (res: Option<Self>)
        ensures
            res == Self::decode(level as int),
            res.is_some() <==> 0 <= level <= 4,
            res matches Some(l) ==> l.code() == level,
    {
        if level == 0 {
            Some(LogLevel::Panic)
        } else if level == 1 {
            Some(LogLevel::Error)
        } else if level == 2 {
            Some(LogLevel::Warning)
        } else if level == 3 {
            Some(LogLevel::Info)
        } else if level == 4 {
            Some(LogLevel::Debug)
        } else {
            None
        }
    }

    /// Encodes the level as the synthesizer expects it.
    pub fn to_ffi(self) -> (level: i32)
        ensures
            level == self.code(),
            Self::decode(level as int) == Some(self),
    {
        match self {
            LogLevel::Panic => 0,
            LogLevel::Error => 1,
            LogLevel::Warning => 2,
            LogLevel::Info => 3,
            LogLevel::Debug => 4,
        }
    }

    /// The upper-case name of the level, as it is printed.
    pub fn as_str(self) -> (name: &'static str)
        ensures
            name@ == self.name(),
    {
        match self {
            LogLevel::Panic => "PANIC",
            LogLevel::Error => "ERROR",
            LogLevel::Warning => "WARNING",
            LogLevel::Info => "INFO",
            LogLevel::Debug => "DEBUG",
        }
    }

    /// The severity under which a message of this level is passed on to a
    /// logging facade: a panic is passed on as an error.
    pub fn into_level(self) -> (level: Level)
        ensures
            level == self.facade(),
    {
        match self {
            LogLevel::Panic => Level::Error,
            LogLevel::Error => Level::Error,
            LogLevel::Warning => Level::Warn,
            LogLevel::Info => Level::Info,
            LogLevel::Debug => Level::Debug,
        }
    }
}

} // verus!

verus! {

/// Log output handler
pub trait Logger {
    /// Whether the logger is in a state that it can be in right after it
    /// handled `message` at `level`.  A logger that says nothing of itself
    /// leaves this as it is, and every state is allowed.
    open spec fn logged(&self, level: LogLevel, message: &str) -> bool {
        true
    }

    /// Log message handling method
    fn log(&mut self, level: LogLevel, message: &str)
        ensures
            final(self).logged(level, message),
    ;
}

/// Closure logger wrapper
///
/// The closure is one that can be given every level and every message.  It
/// is called through a shared reference: a closure that keeps a state keeps
/// it in a cell.
pub struct FnLogger<F: Fn(LogLevel, &str)>(F);

impl<F> FnLogger<F> where F: Fn(LogLevel, &str) {
    #[verifier::type_invariant]
    spec fn takes_all(self) -> bool {
        forall|level: LogLevel, message: &str| #[trigger] self.0.requires((level, message))
    }

    /// The closure that receives the messages.
    pub closed spec fn func(&self) -> F {
        self.0
    }

    pub fn new(func: F) -> (logger: Self)
        requires
            forall|level: LogLevel, message: &str| #[trigger] func.requires((level, message)),
        ensures
            logger.func() == func,
    {
        Self(func)
    }
}

impl<F: Fn(LogLevel, &str)> Logger for FnLogger<F> {
    /// The closure was called with the level and the message, and came
    /// back.
    open spec fn logged(&self, level: LogLevel, message: &str) -> bool {
        self.func().ensures((level, message), ())
    }

    /// Calls the closure with the level and the message.  The closure stays
    /// the one that it was.
    fn log(&mut self, level: LogLevel, message: &str)
        ensures
            final(self).func() == old(self).func(),
    {
        proof {
            use_type_invariant(&*self);
        }
        (self.0)(level, message);
    }
}

/// Logger that passes each message on to a logging facade under a target.
pub struct LogLogger<S> {
    target: S,
}

impl<S> LogLogger<S> {
    /// The target under which the messages are passed on.
    pub closed spec fn spec_target(&self) -> S {
        self.target
    }

    pub fn new(target: S) -> (logger: Self)
        ensures
            logger.spec_target() == target,
    {
        Self { target }
    }

    /// The target under which the messages are passed on.
    pub fn target(&self) -> (target: &S)
        ensures
            *target == self.spec_target(),
    {
        &self.target
    }
}

impl Default for LogLogger<&'static str> {
    /// The logger with the target `fluidlite`.
    fn default() -> (logger: Self)
        ensures
            logger.spec_target()@ == "fluidlite"@,
    {
        LogLogger::new("fluidlite")
    }
}

/// A change of the handler that is registered for one level.
#[derive(Debug, Clone, Copy, PartialEq, Eq, Hash)]
pub enum LogAction {
    /// Register the handler that passes the messages of the level to the
    /// installed logger.
    Install(LogLevel),
    /// Register the synthesizer's own handler for the level again.
    Restore(LogLevel),
}

/// The registrations that install a logger for `levels`, in their order.
pub open spec fn installs(levels: Seq<LogLevel>) -> Seq<LogAction> {
    Seq::new(levels.len(), |i: int| LogAction::Install(levels[i]))
}

/// The registrations that give `levels` back to the synthesizer's own
/// handler, in their order.
pub open spec fn restores(levels: Seq<LogLevel>) -> Seq<LogAction> {
    Seq::new(levels.len(), |i: int| LogAction::Restore(levels[i]))
}

/// Logging
///
/// You can use own logger to handle library messages.
/// Only one logger supported at a time.
pub struct Log<T> {
    levels: Vec<LogLevel>,
    logger: T,
}

impl<T: Logger> Log<T> {
    /// The levels whose messages the logger receives.
    pub closed spec fn spec_levels(&self) -> Seq<LogLevel> {
        self.levels@
    }

    /// The logger that receives the messages.
    pub closed spec fn spec_logger(&self) -> T {
        self.logger
    }

    /// The levels that `slot` holds a logger for: none where it is empty.
    pub open spec fn installed(slot: Option<Log<T>>) -> Seq<LogLevel> {
        match slot {
            Some(log) => log.spec_levels(),
            None => Seq::empty(),
        }
    }

    /// Creates the record of a logger for `levels`, with the registrations
    /// that install it.
    pub fn new(levels: &[LogLevel], logger: T) -> (res: (Self, Vec<LogAction>))
        ensures
            res.0.spec_levels() == levels@,
            res.0.spec_logger() == logger,
            res.1@ == installs(levels@),
    {
        let mut kept: Vec<LogLevel> = Vec::new();
        let mut actions: Vec<LogAction> = Vec::new();
        let mut i: usize = 0;
        while i < levels.len()
            invariant
                i <= levels.len(),
                kept@ =~= levels@.subrange(0, i as int),
                actions@ =~= installs(levels@.subrange(0, i as int)),
            decreases levels.len() - i,
        {
            kept.push(levels[i]);
            actions.push(LogAction::Install(levels[i]));
            i += 1;
        }
        assert(levels@.subrange(0, levels.len() as int) =~= levels@);
        (Log { levels: kept, logger }, actions)
    }

    /// The levels whose messages the logger receives.
    pub fn levels(&self) -> (levels: &[LogLevel])
        ensures
            levels@ == self.spec_levels(),
    {
        self.levels.as_slice()
    }

    /// The registrations that are due when the logger goes away: each of its
    /// levels is given back to the synthesizer's own handler.
    pub fn uninstall(&self) -> (actions: Vec<LogAction>)
        ensures
            actions@ == restores(self.spec_levels()),
    {
        let mut actions: Vec<LogAction> = Vec::new();
        let mut i: usize = 0;
        while i < self.levels.len()
            invariant
                i <= self.levels.len(),
                actions@ =~= restores(self.levels@.subrange(0, i as int)),
            decreases self.levels.len() - i,
        {
            actions.push(LogAction::Restore(self.levels[i]));
            i += 1;
        }
        assert(self.levels@.subrange(0, self.levels.len() as int) =~= self.levels@);
        actions
    }

    /// Set logger
    ///
    /// Puts a logger for `levels` into `slot`.  The registrations that are
    /// returned first give back the levels of the logger that `slot` held, if
    /// any, and then install the new one.  The logger that `slot` held is
    /// handed back with them: the handlers of its levels point to it until
    /// the registrations are performed, so it is dropped only after that.
    pub fn set(slot: &mut Option<Log<T>>, levels: &[LogLevel], logger: T) -> (res: (
        Vec<LogAction>,
        Option<Log<T>>,
    ))
        ensures
            final(slot).is_some(),
            final(slot).unwrap().spec_levels() == levels@,
            final(slot).unwrap().spec_logger() == logger,
            res.0@ == restores(Self::installed(*old(slot))) + installs(levels@),
            res.1 == *old(slot),
    {
        let (mut actions, retired) = Self::reset(slot);
        let (log, mut installing) = Log::new(levels, logger);
        actions.append(&mut installing);
        *slot = Some(log);
        (actions, retired)
    }

    /// Reset logger
    ///
    /// Empties `slot`.  The registrations that are returned give back the
    /// levels of the logger that it held, if any.  That logger is handed back
    /// with them: the handlers of its levels point to it until the
    /// registrations are performed, so it is dropped only after that.
    pub fn reset(slot: &mut Option<Log<T>>) -> (res: (Vec<LogAction>, Option<Log<T>>))
        ensures
            final(slot).is_none(),
            res.0@ == restores(Self::installed(*old(slot))),
            res.1 == *old(slot),
    {
        let mut retired: Option<Log<T>> = None;
        core::mem::swap(slot, &mut retired);
        let actions = match &retired {
            Some(log) => log.uninstall(),
            None => Vec::new(),
        };
        (actions, retired)
    }

    /// Passes a message that the synthesizer reported with the integer
    /// `level` on to the logger, which handles it at the level that the
    /// integer stands for.  The levels that the logger is installed for stay
    /// as they are.
    pub fn handle(&mut self, level: i32, message: &str)
        requires
            LogLevel::decode(level as int).is_some(),
        ensures
            final(self).spec_levels() == old(self).spec_levels(),
            final(self).spec_logger().logged(LogLevel::decode(level as int).unwrap(), message),
    {
        match LogLevel::from_ffi(level) {
            Some(l) => self.logger.log(l, message),
            None => {},
        }
    }
}

} // verus!
